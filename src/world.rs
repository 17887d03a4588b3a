use vstd::prelude::*;
use crate::material::{Material, MaterialReference};
use crate::sphere::Sphere;

verus! {

/// What a scene holds: its materials and spheres, in insertion order.
pub ghost struct SceneView {
    pub materials: Seq<Material>,
    pub spheres: Seq<Sphere>,
}

impl SceneView {
    pub open spec fn empty() -> Self {
        SceneView { materials: Seq::empty(), spheres: Seq::empty() }
    }

    /// Every sphere names a material of the table.
    pub open spec fn well_formed(self) -> bool {
        forall|i: int| 0 <= i < self.spheres.len() ==> (#[trigger] self.spheres[i]).material.id < self.materials.len()
    }

    /// The reference that the next added material receives.
    pub open spec fn next_reference(self) -> MaterialReference {
        MaterialReference { id: self.materials.len() as u32 }
    }

    pub open spec fn with_material(self, m: Material) -> Self {
        SceneView { materials: self.materials.push(m), ..self }
    }

    pub open spec fn with_sphere(self, s: Sphere) -> Self {
        SceneView { spheres: self.spheres.push(s), ..self }
    }
}

/// Device words of a material table: each record in order.
pub open spec fn material_words(ms: Seq<Material>) -> Seq<u32>
    decreases ms.len(),
{
    if ms.len() == 0 {
        Seq::empty()
    } else {
        material_words(ms.drop_last()) + ms.last().record()
    }
}

/// Device words of a sphere table: each record in order.
pub open spec fn sphere_words(ss: Seq<Sphere>) -> Seq<u32>
    decreases ss.len(),
{
    if ss.len() == 0 {
        Seq::empty()
    } else {
        sphere_words(ss.drop_last()) + ss.last().record()
    }
}

/// Adds `ms` one after another to `s`; the scene reached and the references
/// handed out, in order.
pub open spec fn add_materials(s: SceneView, ms: Seq<Material>) -> (SceneView, Seq<MaterialReference>)
    decreases ms.len(),
{
    if ms.len() == 0 {
        (s, Seq::empty())
    } else {
        let (t, refs) = add_materials(s, ms.drop_last());
        (t.with_material(ms.last()), refs.push(t.next_reference()))
    }
}

/// Adding a material and then a sphere that uses the returned reference
/// leaves every sphere of the scene naming a material of its table.
pub proof fn lemma_added_reference_in_range(s: SceneView, m: Material, sphere: Sphere)
    requires
        s.well_formed(),
        s.materials.len() <= u32::MAX,
        sphere.material == s.next_reference(),
    ensures
        sphere.material.id < s.with_material(m).materials.len(),
        s.with_material(m).with_sphere(sphere).well_formed(),
{
    let t = s.with_material(m).with_sphere(sphere);
    assert forall|i: int| 0 <= i < t.spheres.len() implies
        (#[trigger] t.spheres[i]).material.id < t.materials.len() by {
        if i < s.spheres.len() {
            assert(t.spheres[i] == s.spheres[i]);
        }
    }
}

/// Adding `N` materials to an empty scene hands out the references
/// `0..N-1` in insertion order, and the table holds the materials in that order.
pub proof fn lemma_sequential_references(ms: Seq<Material>)
    requires
        ms.len() <= u32::MAX + 1,
    ensures
        add_materials(SceneView::empty(), ms).0.materials == ms,
        add_materials(SceneView::empty(), ms).1.len() == ms.len(),
        forall|i: int| 0 <= i < ms.len() ==> (#[trigger] add_materials(SceneView::empty(), ms).1[i]).id == i,
    decreases ms.len(),
{
    if ms.len() > 0 {
        let prefix = ms.drop_last();
        lemma_sequential_references(prefix);
        let (t, refs) = add_materials(SceneView::empty(), prefix);
        assert(t.materials.push(ms.last()) =~= ms);
        let all = refs.push(t.next_reference());
        assert forall|i: int| 0 <= i < ms.len() implies (#[trigger] all[i]).id == i by {
            if i < prefix.len() {
                assert(all[i] == refs[i]);
            }
        }
    }
}

/// Append-only store of materials and spheres, built once and then uploaded.
pub struct World {
    materials: Vec<Material>,
    spheres: Vec<Sphere>,
}

impl View for World {
    type V = SceneView;

    closed spec fn view(&self) -> SceneView {
        SceneView { materials: self.materials@, spheres: self.spheres@ }
    }
}

impl World {
    pub fn new() -> (r: Self)
        ensures
            r@ == SceneView::empty(),
            r@.well_formed(),
    {
        World { materials: Vec::new(), spheres: Vec::new() }
    }

    /// Appends `material` and returns its index, the previous table length.
    pub fn add_material(&mut self, material: Material) -> (r: MaterialReference)
        requires
            old(self)@.materials.len() <= u32::MAX,
        ensures
            r == old(self)@.next_reference(),
            r.id == old(self)@.materials.len(),
            final(self)@ == old(self)@.with_material(material),
            old(self)@.well_formed() ==> final(self)@.well_formed(),
    {
        let r = MaterialReference::new(self.materials.len() as u32);
        self.materials.push(material);
        proof {
            if old(self)@.well_formed() {
                assert forall|i: int| 0 <= i < self@.spheres.len() implies
                    (#[trigger] self@.spheres[i]).material.id < self@.materials.len() by {
                    assert(self@.spheres[i] == old(self)@.spheres[i]);
                }
            }
        }
        r
    }

    /// Appends `sphere`, whose material must already be in the table.
    pub fn add_sphere(&mut self, sphere: Sphere)
        requires
            sphere.material.id < old(self)@.materials.len(),
        ensures
            final(self)@ == old(self)@.with_sphere(sphere),
            old(self)@.well_formed() ==> final(self)@.well_formed(),
    {
        self.spheres.push(sphere);
        proof {
            if old(self)@.well_formed() {
                assert forall|i: int| 0 <= i < self@.spheres.len() implies
                    (#[trigger] self@.spheres[i]).material.id < self@.materials.len() by {
                    if i < old(self)@.spheres.len() {
                        assert(self@.spheres[i] == old(self)@.spheres[i]);
                    }
                }
            }
        }
    }

    pub fn materials(&self) -> (r: &[Material])
        ensures
            r@ == self@.materials,
    {
        self.materials.as_slice()
    }

    pub fn spheres(&self) -> (r: &[Sphere])
        ensures
            r@ == self@.spheres,
    {
        self.spheres.as_slice()
    }

    /// The material table as device words, ready for a storage buffer.
    pub fn material_buffer(&self) -> (r: Vec<u32>)
        ensures
            r@ == material_words(self@.materials),
    {
        let mut out: Vec<u32> = Vec::new();
        let mut i: usize = 0;
        while i < self.materials.len()
            invariant
                i <= self.materials@.len(),
                out@ == material_words(self.materials@.take(i as int)),
            decreases self.materials@.len() - i,
        {
            proof {
                let next = self.materials@.take(i + 1);
                assert(next.drop_last() =~= self.materials@.take(i as int));
                assert(next.last() == self.materials@[i as int]);
            }
            self.materials[i].push_record(&mut out);
            i = i + 1;
        }
        assert(self.materials@.take(i as int) =~= self.materials@);
        out
    }

    /// The sphere table as device words, ready for a storage buffer.
    pub fn sphere_buffer(&self) -> (r: Vec<u32>)
        ensures
            r@ == sphere_words(self@.spheres),
    {
        let mut out: Vec<u32> = Vec::new();
        let mut i: usize = 0;
        while i < self.spheres.len()
            invariant
                i <= self.spheres@.len(),
                out@ == sphere_words(self.spheres@.take(i as int)),
            decreases self.spheres@.len() - i,
        {
            proof {
                let next = self.spheres@.take(i + 1);
                assert(next.drop_last() =~= self.spheres@.take(i as int));
                assert(next.last() == self.spheres@[i as int]);
            }
            self.spheres[i].push_record(&mut out);
            i = i + 1;
        }
        assert(self.spheres@.take(i as int) =~= self.spheres@);
        out
    }
}

} // verus!
