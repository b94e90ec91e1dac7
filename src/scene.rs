//! The closed sets of scene choices that the GPU programs understand, with
//! their stable numeric ids.

use vstd::prelude::*;

verus! {

/// The family of fractal to render; each family has its own GPU program.
#[derive(Clone, Copy, Debug, PartialEq, Eq, Structural)]
pub enum FractalGroup {
    KaleidoscopicIFS,
    JuliaSet,
    GeneralizedJuliaSet,
}

impl FractalGroup {
    /// The stable numeric id of each group.
    pub open spec fn id_spec(self) -> u32 {
        match self {
            FractalGroup::KaleidoscopicIFS => 0,
            FractalGroup::JuliaSet => 1,
            FractalGroup::GeneralizedJuliaSet => 2,
        }
    }

    /// The group an id stands for; an id that names none stands for the
    /// first group.
    pub open spec fn from_id_spec(id: u32) -> FractalGroup {
        if id == 1 {
            FractalGroup::JuliaSet
        } else if id == 2 {
            FractalGroup::GeneralizedJuliaSet
        } else {
            FractalGroup::KaleidoscopicIFS
        }
    }

    pub fn id(self) -> (r: u32)
        ensures
            r == self.id_spec(),
            r < 3,
    {
        match self {
            FractalGroup::KaleidoscopicIFS => 0,
            FractalGroup::JuliaSet => 1,
            FractalGroup::GeneralizedJuliaSet => 2,
        }
    }

    /// Decodes an id; never fails: an unknown id gives the first group.
    pub fn from_id(id: u32) -> (r: FractalGroup)
        ensures
            r == Self::from_id_spec(id),
            id < 3 ==> r.id_spec() == id,
            id >= 3 ==> r == FractalGroup::KaleidoscopicIFS,
    {
        match id {
            1 => FractalGroup::JuliaSet,
            2 => FractalGroup::GeneralizedJuliaSet,
            _ => FractalGroup::KaleidoscopicIFS,
        }
    }

    /// The name shown to the user.
    pub fn name(self) -> (r: &'static str)
        ensures
            self == FractalGroup::KaleidoscopicIFS ==> r@ == "Kaleidoscopic IFS"@,
            self == FractalGroup::JuliaSet ==> r@ == "Julia Set"@,
            self == FractalGroup::GeneralizedJuliaSet ==> r@ == "Generalized Julia Set"@,
    {
        match self {
            FractalGroup::KaleidoscopicIFS => "Kaleidoscopic IFS",
            FractalGroup::JuliaSet => "Julia Set",
            FractalGroup::GeneralizedJuliaSet => "Generalized Julia Set",
        }
    }

    /// Every group, in the order of their ids.
    pub fn all() -> (r: Vec<FractalGroup>)
        ensures
            r@.len() == 3,
            forall|i: int| 0 <= i < 3 ==> (#[trigger] r@[i]).id_spec() == i,
    {
        vec![FractalGroup::KaleidoscopicIFS, FractalGroup::JuliaSet, FractalGroup::GeneralizedJuliaSet]
    }
}

impl Default for FractalGroup {
    fn default() -> (r: FractalGroup)
        ensures
            r == FractalGroup::KaleidoscopicIFS,
    {
        FractalGroup::KaleidoscopicIFS
    }
}

/// The primitive shape that the kaleidoscopic fractals fold.
#[derive(Clone, Copy, Debug, PartialEq, Eq, Structural)]
pub enum PrimitiveShape {
    Sphere,
    Cylinder,
    Box,
    Torus,
    SierpinskiTetrahedron,
    Bunny,
}

impl PrimitiveShape {
    /// The stable numeric id of each shape.
    pub open spec fn id_spec(self) -> u32 {
        match self {
            PrimitiveShape::Sphere => 0,
            PrimitiveShape::Cylinder => 1,
            PrimitiveShape::Box => 2,
            PrimitiveShape::Torus => 3,
            PrimitiveShape::SierpinskiTetrahedron => 4,
            PrimitiveShape::Bunny => 5,
        }
    }

    /// The shape an id stands for; an id that names none stands for the
    /// sphere.
    pub open spec fn from_id_spec(id: u32) -> PrimitiveShape {
        if id == 1 {
            PrimitiveShape::Cylinder
        } else if id == 2 {
            PrimitiveShape::Box
        } else if id == 3 {
            PrimitiveShape::Torus
        } else if id == 4 {
            PrimitiveShape::SierpinskiTetrahedron
        } else if id == 5 {
            PrimitiveShape::Bunny
        } else {
            PrimitiveShape::Sphere
        }
    }

    pub fn id(&self) -> (r: u32)
        ensures
            r == self.id_spec(),
            r < 6,
    {
        match self {
            PrimitiveShape::Sphere => 0,
            PrimitiveShape::Cylinder => 1,
            PrimitiveShape::Box => 2,
            PrimitiveShape::Torus => 3,
            PrimitiveShape::SierpinskiTetrahedron => 4,
            PrimitiveShape::Bunny => 5,
        }
    }

    /// Decodes an id; never fails: an unknown id gives the sphere.
    pub fn from_id(id: u32) -> (r: PrimitiveShape)
        ensures
            r == Self::from_id_spec(id),
            id < 6 ==> r.id_spec() == id,
            id >= 6 ==> r == PrimitiveShape::Sphere,
    {
        match id {
            0 => PrimitiveShape::Sphere,
            1 => PrimitiveShape::Cylinder,
            2 => PrimitiveShape::Box,
            3 => PrimitiveShape::Torus,
            4 => PrimitiveShape::SierpinskiTetrahedron,
            5 => PrimitiveShape::Bunny,
            _ => PrimitiveShape::Sphere,
        }
    }

    /// The name shown to the user.
    pub fn name(self) -> (r: &'static str)
        ensures
            self == PrimitiveShape::Sphere ==> r@ == "Sphere"@,
            self == PrimitiveShape::Cylinder ==> r@ == "Cylinder"@,
            self == PrimitiveShape::Box ==> r@ == "Box"@,
            self == PrimitiveShape::Torus ==> r@ == "Torus"@,
            self == PrimitiveShape::SierpinskiTetrahedron ==> r@ == "Sierpinski Tetrahedron"@,
            self == PrimitiveShape::Bunny ==> r@ == "Bunny"@,
    {
        match self {
            PrimitiveShape::Sphere => "Sphere",
            PrimitiveShape::Cylinder => "Cylinder",
            PrimitiveShape::Box => "Box",
            PrimitiveShape::Torus => "Torus",
            PrimitiveShape::SierpinskiTetrahedron => "Sierpinski Tetrahedron",
            PrimitiveShape::Bunny => "Bunny",
        }
    }

    /// Every shape, in the order of their ids.
    pub fn all() -> (r: Vec<PrimitiveShape>)
        ensures
            r@.len() == 6,
            forall|i: int| 0 <= i < 6 ==> (#[trigger] r@[i]).id_spec() == i,
    {
        vec![
            PrimitiveShape::Sphere,
            PrimitiveShape::Cylinder,
            PrimitiveShape::Box,
            PrimitiveShape::Torus,
            PrimitiveShape::SierpinskiTetrahedron,
            PrimitiveShape::Bunny,
        ]
    }
}

impl Default for PrimitiveShape {
    fn default() -> (r: PrimitiveShape)
        ensures
            r == PrimitiveShape::Sphere,
    {
        PrimitiveShape::Sphere
    }
}

/// Decoding an id never fails: every id outside the known range decodes to
/// the default variant, and decoding the id of a variant gives that variant.
pub proof fn lemma_decode_total(id: u32, group: FractalGroup, shape: PrimitiveShape)
    ensures
        id >= 3 ==> FractalGroup::from_id_spec(id) == FractalGroup::KaleidoscopicIFS,
        id >= 6 ==> PrimitiveShape::from_id_spec(id) == PrimitiveShape::Sphere,
        FractalGroup::from_id_spec(group.id_spec()) == group,
        PrimitiveShape::from_id_spec(shape.id_spec()) == shape,
        FractalGroup::from_id_spec(id).id_spec() < 3,
        PrimitiveShape::from_id_spec(id).id_spec() < 6,
{
}

} // verus!
