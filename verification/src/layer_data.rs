//! Layers of a region's surface data, and the patches that a heightmap is
//! split into.

use vstd::prelude::*;

verus! {

/// What a layer of surface data describes.
#[derive(Clone, Copy, Debug, PartialEq, Eq, Structural)]
pub enum LayerType {
    Land,
    Wind,
    Cloud,
    Water,
    VarLand,
    VarWind,
    VarCloud,
    VarWater,
}

/// Why surface data could not be extracted.
#[derive(Clone, Copy, Debug, PartialEq, Eq, Structural)]
pub enum ExtractSurfaceErrorKind {
    /// The layer's type code is none of the known ones.
    UnknownLayerType(u8),
}

/// The layer type that a code stands for, if any.
pub open spec fn layer_of_code(c: u8) -> Option<LayerType> {
    if c == 0x4c {
        Some(LayerType::Land)
    } else if c == 0x37 {
        Some(LayerType::Wind)
    } else if c == 0x38 {
        Some(LayerType::Cloud)
    } else if c == 0x57 {
        Some(LayerType::Water)
    } else if c == 0x4d {
        Some(LayerType::VarLand)
    } else if c == 0x58 {
        Some(LayerType::VarWind)
    } else if c == 0x39 {
        Some(LayerType::VarCloud)
    } else if c == 0x3a {
        Some(LayerType::VarWater)
    } else {
        None
    }
}

impl LayerType {
    /// Reads a layer type from its code: the characters `L`, `7`, `8`, `W` for
    /// land, wind, cloud and water, and `M`, `X`, `9`, `:` for their variable
    /// region size forms.
    pub fn from_code(c: u8) -> (r: Result<Self, ExtractSurfaceErrorKind>)
        ensures
            match r {
                Ok(t) => layer_of_code(c) == Some(t),
                Err(e) => layer_of_code(c) is None && e
                    == ExtractSurfaceErrorKind::UnknownLayerType(c),
            },
    {
        match c {
            0x4c => Ok(LayerType::Land),
            0x37 => Ok(LayerType::Wind),
            0x38 => Ok(LayerType::Cloud),
            0x57 => Ok(LayerType::Water),
            0x4d => Ok(LayerType::VarLand),
            0x58 => Ok(LayerType::VarWind),
            0x39 => Ok(LayerType::VarCloud),
            0x3a => Ok(LayerType::VarWater),
            code => Err(ExtractSurfaceErrorKind::UnknownLayerType(code)),
        }
    }

    /// Whether patches of this layer are large. Known for land only.
    pub fn is_large_patch(&self) -> (b: bool)
        requires
            *self == LayerType::Land,
        ensures
            !b,
    {
        false
    }
}

/// One patch of a region's heightmap.
///
/// A region's heightmap is split into many square patches. The heights are
/// kept as the bit patterns of 32-bit IEEE 754 numbers, row after row.
#[derive(Debug, PartialEq, Eq)]
pub struct Patch {
    size: u32,
    patch_pos: (u32, u32),
    data: Vec<u32>,
}

impl Patch {
    /// A patch holds one height for each point of its square.
    #[verifier::type_invariant]
    spec fn wf(&self) -> bool {
        self.data@.len() == self.size * self.size
    }

    /// The side length of the patch.
    pub closed spec fn spec_side_length(&self) -> u32 {
        self.size
    }

    /// The position of the patch in the grid of patches.
    pub closed spec fn spec_patch_position(&self) -> (u32, u32) {
        self.patch_pos
    }

    /// The heights of the patch.
    pub closed spec fn spec_data(&self) -> Seq<u32> {
        self.data@
    }

    /// A patch of side length `size` at `patch_pos`; `None` unless `data`
    /// holds `size` times `size` heights.
    pub fn new(size: u32, patch_pos: (u32, u32), data: Vec<u32>) -> (r: Option<Patch>)
        ensures
            r is Some <==> data@.len() == size * size,
            r is Some ==> r.unwrap().spec_side_length() == size
                && r.unwrap().spec_patch_position() == patch_pos && r.unwrap().spec_data()
                == data@,
    {
        let side: u64 = size as u64;
        assert(side * side <= 0xffff_ffff * 0xffff_ffff) by (nonlinear_arith)
            requires
                side <= 0xffff_ffff,
        ;
        let want: u64 = side * side;
        if data.len() as u64 == want {
            Some(Patch { size, patch_pos, data })
        } else {
            None
        }
    }

    /// Side length of the square patch.
    ///
    /// This is both the number of values per direction and the side length
    /// of the patch in meters, as there is one height per meter.
    pub fn side_length(&self) -> (n: u32)
        ensures
            n == self.spec_side_length(),
    {
        self.size
    }

    /// Patch position (index, not meters) in the region.
    pub fn patch_position(&self) -> (p: (u32, u32))
        ensures
            p == self.spec_patch_position(),
    {
        self.patch_pos
    }

    /// The heights, row after row: as many as the square of the side length.
    pub fn data(&self) -> (d: &Vec<u32>)
        ensures
            d@ == self.spec_data(),
            d@.len() == self.spec_side_length() * self.spec_side_length(),
    {
        proof {
            use_type_invariant(self);
        }
        &self.data
    }
}

} // verus!
