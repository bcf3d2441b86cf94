//! GeoJSON geometries, as far as their shape goes: which kind a geometry
//! is, and the rings of a polygon. The coordinates are of any type `C`;
//! they are moved, never computed with.

use vstd::prelude::*;
use crate::Error;

verus! {

/// The value of a GeoJSON geometry. A position is the list of its coordinates.
#[derive(Debug)]
pub enum GeoJsonValue<C> {
    Point(Vec<C>),
    MultiPoint(Vec<Vec<C>>),
    LineString(Vec<Vec<C>>),
    MultiLineString(Vec<Vec<Vec<C>>>),
    /// The rings of a polygon: the outer ring first, then the holes.
    Polygon(Vec<Vec<Vec<C>>>),
    MultiPolygon(Vec<Vec<Vec<Vec<C>>>>),
    GeometryCollection(Vec<GeoJsonValue<C>>),
}

/// A polygon in the plane: its outer ring, and the rings of its holes.
#[derive(Debug)]
pub struct Polygon<C> {
    pub exterior: Vec<(C, C)>,
    pub interiors: Vec<Vec<(C, C)>>,
}

/// A position is well formed when it has two or three coordinates.
pub open spec fn well_formed<C>(position: Seq<C>) -> bool {
    position.len() == 2 || position.len() == 3
}

/// Every position of `positions` is well formed.
pub open spec fn all_well_formed<C>(positions: Seq<Vec<C>>) -> bool {
    forall|i: int| 0 <= i < positions.len() ==> well_formed(#[trigger] positions[i]@)
}

/// Every position of every ring of `rings` is well formed.
pub open spec fn rings_well_formed<C>(rings: Seq<Vec<Vec<C>>>) -> bool {
    forall|i: int| 0 <= i < rings.len() ==> all_well_formed(#[trigger] rings[i]@)
}

/// The place of a position in the plane: its first two coordinates.
pub open spec fn planar<C>(position: Seq<C>) -> (C, C) {
    (position[0], position[1])
}

/// The points of `positions` in the plane, in their order.
pub open spec fn line<C>(positions: Seq<Vec<C>>) -> Seq<(C, C)> {
    positions.map_values(|position: Vec<C>| planar(position@))
}

/// The rings of `rings`, each as its points in the plane.
pub open spec fn lines<C>(rings: Seq<Vec<Vec<C>>>) -> Seq<Seq<(C, C)>> {
    rings.map_values(|ring: Vec<Vec<C>>| line(ring@))
}

/// The rings of the holes of `polygon`, each as its points.
pub open spec fn holes<C>(polygon: Polygon<C>) -> Seq<Seq<(C, C)>> {
    polygon.interiors@.map_values(|ring: Vec<(C, C)>| ring@)
}

/// The points of a line string or ring, without the height of a
/// three-dimensional position. A position with another number of
/// coordinates is refused.
pub fn linestring_help<C: Copy, E>(value: &Vec<Vec<C>>) -> (points: Result<Vec<(C, C)>, Error<E>>)
    ensures
        all_well_formed(value@) ==> (points matches Ok(p) && p@ == line(value@)),
        !all_well_formed(value@) ==> (points matches Err(Error::MalformedGeometry)),
{
    let mut points: Vec<(C, C)> = Vec::with_capacity(value.len());
    let mut i: usize = 0;
    while i < value.len()
        invariant
            i <= value.len(),
            all_well_formed(value@.take(i as int)),
            points@ == line(value@.take(i as int)),
        decreases value.len() - i,
    {
        let position = &value[i];
        if position.len() == 2 || position.len() == 3 {
            points.push((position[0], position[1]));
        } else {
            assert(!well_formed(value@[i as int]@));
            return Err(Error::MalformedGeometry);
        }
        proof {
            let before = value@.take(i as int);
            let after = value@.take(i + 1);
            assert(after =~= before.push(value@[i as int]));
            assert(line(after) =~= line(before).push(planar(value@[i as int]@)));
            assert forall|j: int| 0 <= j < after.len() implies well_formed(#[trigger] after[j]@) by {
                if j < i {
                    assert(after[j] == before[j]);
                }
            }
        }
        i += 1;
    }
    proof {
        assert(value@.take(i as int) =~= value@);
    }
    Ok(points)
}

/// The polygon of a GeoJSON geometry: its first ring is the outer ring,
/// the others are holes. A geometry of another kind has no polygon, which
/// is no error. A polygon has at least its outer ring.
pub fn geojson_value_to_polygon<C: Copy, E>(value: &GeoJsonValue<C>) -> (polygon: Result<
    Option<Polygon<C>>,
    Error<E>,
>)
    requires
        value matches GeoJsonValue::Polygon(rings) ==> rings.len() > 0,
    ensures
        !(value is Polygon) ==> (polygon matches Ok(None)),
        value matches GeoJsonValue::Polygon(rings) ==> {
            if rings_well_formed(rings@) {
                &&& polygon matches Ok(Some(p))
                &&& p.exterior@ == line(rings[0]@)
                &&& p.interiors.len() == rings.len() - 1
                &&& holes(p) == lines(rings@.skip(1))
            } else {
                polygon matches Err(Error::MalformedGeometry)
            }
        },
{
    match value {
        GeoJsonValue::Polygon(rings) => {
            let outer = match linestring_help::<C, E>(&rings[0]) {
                Ok(points) => points,
                Err(error) => {
                    return Err(error);
                },
            };
            let mut inners: Vec<Vec<(C, C)>> = Vec::with_capacity(rings.len() - 1);
            let mut i: usize = 1;
            while i < rings.len()
                invariant
                    *value == GeoJsonValue::Polygon(*rings),
                    1 <= i <= rings.len(),
                    rings_well_formed(rings@.take(i as int)),
                    inners@.map_values(|ring: Vec<(C, C)>| ring@) == lines(
                        rings@.take(i as int).skip(1),
                    ),
                decreases rings.len() - i,
            {
                let ghost before = rings@.take(i as int);
                let ghost after = rings@.take(i + 1);
                let ghost done = inners@;
                match linestring_help::<C, E>(&rings[i]) {
                    Ok(points) => {
                        inners.push(points);
                        proof {
                            assert(after =~= before.push(rings@[i as int]));
                            assert(after.skip(1) =~= before.skip(1).push(rings@[i as int]));
                            assert(inners@.map_values(|ring: Vec<(C, C)>| ring@) =~= done.map_values(
                                |ring: Vec<(C, C)>| ring@,
                            ).push(points@));
                            assert(lines(after.skip(1)) =~= lines(before.skip(1)).push(
                                line(rings@[i as int]@),
                            ));
                            assert forall|j: int| 0 <= j < after.len() implies all_well_formed(
                                #[trigger] after[j]@,
                            ) by {
                                if j < i {
                                    assert(after[j] == before[j]);
                                }
                            }
                        }
                    },
                    Err(error) => {
                        assert(!all_well_formed(rings@[i as int]@));
                        return Err(error);
                    },
                }
                i += 1;
            }
            proof {
                assert(rings@.take(i as int) =~= rings@);
                assert(rings@.take(1)[0] == rings@[0]);
            }
            Ok(Some(Polygon { exterior: outer, interiors: inners }))
        },
        _ => Ok(None),
    }
}

} // verus!
