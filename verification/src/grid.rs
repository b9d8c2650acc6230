//! The diorama grid: integer cells that become unit cubes in world space.
//!
//! A cell `(x, y, z)` becomes a cube whose minimum corner is the cell
//! coordinate shifted by half the grid's extent times the cube width.
//! Out-of-bounds cells are ignored, and a whole layer can be filled from a
//! list of cells.

use vstd::prelude::*;

verus! {

use crate::cube::{Cube, CubeS};
use crate::fx::{Fx, FX_ONE, mul_fx, lemma_mul_fx_bound};
use crate::material::{Material, MatS, mat_wf};
use crate::object::{Object, ObjectS, obj_views, objects_wf};
use crate::vec3::{Vec3, V3i};

/// The largest grid side.
pub const GRID_DIM_CAP: usize = 4096;

/// The largest cube width the grid accepts: the value 16.
pub const GRID_CW_CAP: i128 = 1048576;

/// The grid's shape is within bounds and its cubes have positive size.
pub open spec fn grid_dims_wf(cw: int, w: int, h: int, d: int) -> bool {
    &&& 1 <= cw <= GRID_CW_CAP as int
    &&& 0 <= w <= GRID_DIM_CAP as int
    &&& 0 <= h <= GRID_DIM_CAP as int
    &&& 0 <= d <= GRID_DIM_CAP as int
}

/// The cube a grid cell becomes: the cell coordinate, shifted by half the
/// grid extent times the cube width, spans one cube width per axis.
pub open spec fn grid_cube_s(cw: int, w: int, h: int, d: int, x: int, y: int, z: int, m: MatS)
    -> CubeS {
    let mnx = x * (FX_ONE as int) - mul_fx(w * 32768, cw);
    let mny = y * (FX_ONE as int) - mul_fx(h * 32768, cw);
    let mnz = z * (FX_ONE as int) - mul_fx(d * 32768, cw);
    CubeS {
        min: V3i { x: mnx, y: mny, z: mnz },
        max: V3i { x: mnx + cw, y: mny + cw, z: mnz + cw },
        material: m,
    }
}

/// What one cell insertion does to the object list: a push inside the
/// bounds, nothing outside.
pub open spec fn add_cube_s(
    objs: Seq<ObjectS>,
    cw: int,
    w: int,
    h: int,
    d: int,
    x: int,
    y: int,
    z: int,
    m: MatS,
) -> Seq<ObjectS> {
    if x < w && y < h && z < d {
        objs.push(ObjectS::Cube(grid_cube_s(cw, w, h, d, x, y, z, m)))
    } else {
        objs
    }
}

/// What filling a layer from a list of `(x, z)` cells does, entry by
/// entry in list order.
pub open spec fn add_layer_s(
    objs: Seq<ObjectS>,
    cw: int,
    w: int,
    h: int,
    d: int,
    layer: int,
    entries: Seq<(int, int, MatS)>,
    i: int,
) -> Seq<ObjectS>
    decreases entries.len() - i,
{
    if i < 0 || i >= entries.len() {
        objs
    } else {
        add_layer_s(
            add_cube_s(objs, cw, w, h, d, entries[i].0, layer, entries[i].1, entries[i].2),
            cw,
            w,
            h,
            d,
            layer,
            entries,
            i + 1,
        )
    }
}

/// The spec-level image of a layer list.
pub open spec fn entry_views(s: Seq<(usize, usize, Material)>) -> Seq<(int, int, MatS)> {
    s.map_values(|t: (usize, usize, Material)| (t.0 as int, t.1 as int, t.2@))
}

/// A diorama under construction: grid shape plus the objects so far.
pub struct Grid {
    /// World width of one cube.
    pub cube_width: Fx,
    /// Cells along the y axis.
    pub height: usize,
    /// Cells along the x axis.
    pub width: usize,
    /// Cells along the z axis.
    pub depth: usize,
    /// The primitives placed so far.
    pub objects: Vec<Object>,
}

/// The bounds a grid obeys.
pub open spec fn grid_wf(g: &Grid) -> bool {
    grid_dims_wf(g.cube_width@, g.width as int, g.height as int, g.depth as int)
}

impl Grid {
    /// An empty grid of the given shape.
    pub fn new(cube_width: Fx, grid_height: usize, grid_width: usize, grid_depth: usize) -> (g:
        Grid)
        requires
            grid_dims_wf(cube_width@, grid_width as int, grid_height as int, grid_depth as int),
        ensures
            g.cube_width == cube_width,
            g.height == grid_height,
            g.width == grid_width,
            g.depth == grid_depth,
            g.objects@.len() == 0,
            grid_wf(&g),
    {
        Grid {
            cube_width,
            height: grid_height,
            width: grid_width,
            depth: grid_depth,
            objects: Vec::new(),
        }
    }

    /// Places one cube at a cell; a cell outside the grid is ignored.
    pub fn add_cube(&mut self, x: usize, y: usize, z: usize, material: Material)
        requires
            grid_wf(old(self)),
            mat_wf(material@),
            x <= GRID_DIM_CAP,
            y <= GRID_DIM_CAP,
            z <= GRID_DIM_CAP,
        ensures
            final(self).cube_width == old(self).cube_width,
            final(self).width == old(self).width,
            final(self).height == old(self).height,
            final(self).depth == old(self).depth,
            grid_wf(final(self)),
            objects_wf(obj_views(old(self).objects@)) ==> objects_wf(
                obj_views(final(self).objects@),
            ),
            obj_views(final(self).objects@) == add_cube_s(
                obj_views(old(self).objects@),
                old(self).cube_width@,
                old(self).width as int,
                old(self).height as int,
                old(self).depth as int,
                x as int,
                y as int,
                z as int,
                material@,
            ),
    {
        if x < self.width && y < self.height && z < self.depth {
            let cw = self.cube_width;
            proof {
                lemma_mul_fx_bound(
                    (self.width as int) * 32768,
                    cw@,
                    134217728,
                    GRID_CW_CAP as int,
                );
                lemma_mul_fx_bound(
                    (self.height as int) * 32768,
                    cw@,
                    134217728,
                    GRID_CW_CAP as int,
                );
                lemma_mul_fx_bound(
                    (self.depth as int) * 32768,
                    cw@,
                    134217728,
                    GRID_CW_CAP as int,
                );
            }
            let hx = Fx((self.width as i128) * 32768).mul(cw);
            let hy = Fx((self.height as i128) * 32768).mul(cw);
            let hz = Fx((self.depth as i128) * 32768).mul(cw);
            let mn = Vec3::new(
                Fx((x as i128) * 65536).sub(hx),
                Fx((y as i128) * 65536).sub(hy),
                Fx((z as i128) * 65536).sub(hz),
            );
            let mx = Vec3::new(mn.x.add(cw), mn.y.add(cw), mn.z.add(cw));
            let cube = Cube::new(mn, mx, material);
            self.objects.push(Object::Cube(cube));
            proof {
                assert(obj_views(self.objects@) =~= add_cube_s(
                    obj_views(old(self).objects@),
                    old(self).cube_width@,
                    old(self).width as int,
                    old(self).height as int,
                    old(self).depth as int,
                    x as int,
                    y as int,
                    z as int,
                    material@,
                ));
            }
        }
    }

    /// Fills one layer from a list of `(x, z)` cells with their materials;
    /// a layer outside the grid is ignored.
    pub fn add_layer(&mut self, layer: usize, list: &Vec<(usize, usize, Material)>)
        requires
            grid_wf(old(self)),
            layer <= GRID_DIM_CAP,
            forall|i: int|
                0 <= i < list@.len() ==> (#[trigger] list@[i]).0 <= GRID_DIM_CAP && list@[i].1
                    <= GRID_DIM_CAP && mat_wf(list@[i].2@),
        ensures
            final(self).cube_width == old(self).cube_width,
            final(self).width == old(self).width,
            final(self).height == old(self).height,
            final(self).depth == old(self).depth,
            grid_wf(final(self)),
            objects_wf(obj_views(old(self).objects@)) ==> objects_wf(
                obj_views(final(self).objects@),
            ),
            obj_views(final(self).objects@) == (if (layer as int) < old(self).height as int {
                add_layer_s(
                    obj_views(old(self).objects@),
                    old(self).cube_width@,
                    old(self).width as int,
                    old(self).height as int,
                    old(self).depth as int,
                    layer as int,
                    entry_views(list@),
                    0,
                )
            } else {
                obj_views(old(self).objects@)
            }),
    {
        if layer < self.height {
            let ghost evs = entry_views(list@);
            let mut i: usize = 0;
            while i < list.len()
                invariant
                    grid_wf(self),
                    layer < self.height,
                    self.cube_width == old(self).cube_width,
                    self.width == old(self).width,
                    self.height == old(self).height,
                    self.depth == old(self).depth,
                    i <= list.len(),
                    evs == entry_views(list@),
                    evs.len() == list@.len(),
                    forall|k: int|
                        0 <= k < list@.len() ==> (#[trigger] list@[k]).0 <= GRID_DIM_CAP
                            && list@[k].1 <= GRID_DIM_CAP && mat_wf(list@[k].2@),
                    objects_wf(obj_views(old(self).objects@)) ==> objects_wf(
                        obj_views(self.objects@),
                    ),
                    add_layer_s(
                        obj_views(old(self).objects@),
                        old(self).cube_width@,
                        old(self).width as int,
                        old(self).height as int,
                        old(self).depth as int,
                        layer as int,
                        evs,
                        0,
                    ) == add_layer_s(
                        obj_views(self.objects@),
                        old(self).cube_width@,
                        old(self).width as int,
                        old(self).height as int,
                        old(self).depth as int,
                        layer as int,
                        evs,
                        i as int,
                    ),
                decreases list.len() - i,
            {
                proof {
                    assert(evs[i as int] == (list@[i as int].0 as int, list@[i as int].1 as int,
                    list@[i as int].2@));
                }
                let entry = &list[i];
                self.add_cube(entry.0, layer, entry.1, entry.2);
                i = i + 1;
            }
        }
    }
}

} // verus!
