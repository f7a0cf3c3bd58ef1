//! Vertex attributes and their shader semantics.
//!
//! A vertex carries a position, a normal and a texture coordinate; each
//! attribute is bound to a shader input by a semantic, which fixes the
//! input's name, its index among the attributes, and how many scalar
//! components it has. Coordinates are plain integers: the demo meshes
//! live on the unit lattice, and the application shell scales them to
//! floating point before upload.

use vstd::prelude::*;

verus! {

/// The shader inputs a vertex is bound to, in attribute order.
#[derive(Clone, Copy, Debug, PartialEq, Eq, Structural)]
pub enum Semantics {
    Position,
    Normal,
    TexCoord,
}

impl Semantics {
    /// The name under which the attribute appears in shader source.
    pub open spec fn spec_name(self) -> Seq<char> {
        match self {
            Semantics::Position => "position"@,
            Semantics::Normal => "normal"@,
            Semantics::TexCoord => "tex_coord"@,
        }
    }

    /// The attribute's index in the vertex layout.
    pub open spec fn spec_index_of(self) -> nat {
        match self {
            Semantics::Position => 0,
            Semantics::Normal => 1,
            Semantics::TexCoord => 2,
        }
    }

    /// How many scalar components the attribute has.
    pub open spec fn spec_components(self) -> nat {
        match self {
            Semantics::Position => 3,
            Semantics::Normal => 3,
            Semantics::TexCoord => 2,
        }
    }

    pub fn name(self) -> (r: &'static str)
        ensures
            r@ == self.spec_name(),
    {
        match self {
            Semantics::Position => "position",
            Semantics::Normal => "normal",
            Semantics::TexCoord => "tex_coord",
        }
    }

    pub fn index_of(self) -> (r: usize)
        ensures
            r == self.spec_index_of(),
    {
        match self {
            Semantics::Position => 0,
            Semantics::Normal => 1,
            Semantics::TexCoord => 2,
        }
    }

    pub fn components(self) -> (r: usize)
        ensures
            r == self.spec_components(),
    {
        match self {
            Semantics::Position => 3,
            Semantics::Normal => 3,
            Semantics::TexCoord => 2,
        }
    }
}

/// No two semantics share a shader input name, so binding attributes
/// by name never aliases two attributes.
pub proof fn lemma_semantics_names_distinct(a: Semantics, b: Semantics)
    requires
        a != b,
    ensures
        a.spec_name() != b.spec_name(),
{
    reveal_strlit("position");
    reveal_strlit("normal");
    reveal_strlit("tex_coord");
    assert("position"@.len() == 8);
    assert("normal"@.len() == 6);
    assert("tex_coord"@.len() == 9);
}

/// One vertex of a mesh: a position, a normal and a texture coordinate
/// on the integer lattice.
#[derive(Clone, Copy, Debug, PartialEq, Eq)]
pub struct Vertex {
    pub pos: (i32, i32, i32),
    pub normal: (i32, i32, i32),
    pub tex_coord: (i32, i32),
}

impl Vertex {
    /// Builds a vertex from its three attributes.
    pub fn from(pos: (i32, i32, i32), normal: (i32, i32, i32), tex_coord: (i32, i32)) -> (v: Vertex)
        ensures
            v == (Vertex { pos, normal, tex_coord }),
    {
        Vertex { pos, normal, tex_coord }
    }
}

} // verus!
