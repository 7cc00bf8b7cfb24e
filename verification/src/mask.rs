//! The layer mask / adjustment layer data sub-section: a length-prefixed
//! blob holding up to two mask descriptors (one vector, one raster) and an
//! optional trailing parameter block with density/feather overrides.

use vstd::prelude::*;

use crate::cursor::be_i32_at;
use crate::cursor::be_u32_at;
use crate::cursor::be_u64_at;
use crate::cursor::PsdCursor;
use crate::cursor::PsdLayerError;

verus! {

pub const POSITION_RELATIVE_TO_LAYER: u8 = 0b0000_0001;

pub const LAYER_MASK_DISABLED: u8 = 0b0000_0010;

pub const INVERT_LAYER_MASK_WHEN_BLENDING: u8 = 0b0000_0100;

pub const USER_MASK_CAME_FROM_RENDERING_OTHER_DATA: u8 = 0b0000_1000;

pub const MASKS_HAVE_PARAMETERS_APPLIED: u8 = 0b0001_0000;

pub const USER_MASK_DENSITY: u8 = 0b0000_0001;

pub const USER_MASK_FEATHER: u8 = 0b0000_0010;

pub const VECTOR_MASK_DENSITY: u8 = 0b0000_0100;

pub const VECTOR_MASK_FEATHER: u8 = 0b0000_1000;

/// The decoded section: at most one vector mask and at most one raster
/// mask. When the section carries two records, the first is always the
/// vector mask and the second the raster mask; a lone record is classified
/// by its own rendered-from-other-data flag.
#[derive(Debug, Clone, Copy)]
pub struct LayerMaskData {
    pub vector_mask: Option<LayerMaskDataInner>,
    pub raster_mask: Option<LayerMaskDataInner>,
}

/// One mask descriptor: an enclosing rectangle (top/left inclusive,
/// bottom/right exclusive), a default fill value for the area outside the
/// rectangle, a behavioral flag byte, and density/feather parameters.
/// `feather` holds the raw bit pattern of the format's 64-bit
/// floating-point field; a value of 0 is the bit pattern of 0.0.
#[derive(Debug, Clone, Copy, PartialEq, Eq, Structural)]
pub struct LayerMaskDataInner {
    pub top: i32,
    pub left: i32,
    pub bottom: i32,
    pub right: i32,
    pub default_color: u8,
    pub flags: u8,
    pub density: u8,
    pub feather: u64,
}

impl LayerMaskDataInner {
    /// The rectangle's height, `bottom - top`, which is negative when
    /// `bottom < top`.
    pub fn height(&self) -> (h: i32)
        requires
            i32::MIN <= self.bottom - self.top <= i32::MAX,
        ensures
            h == self.bottom - self.top,
    {
        self.bottom - self.top
    }

    /// Whether the mask rectangle is relative to the layer's origin.
    pub fn position_relative_to_layer(&self) -> (b: bool)
        ensures
            b == (self.flags & POSITION_RELATIVE_TO_LAYER != 0),
    {
        self.flags & POSITION_RELATIVE_TO_LAYER != 0
    }

    /// Whether the mask is disabled (not applied).
    pub fn layer_mask_disabled(&self) -> (b: bool)
        ensures
            b == (self.flags & LAYER_MASK_DISABLED != 0),
    {
        self.flags & LAYER_MASK_DISABLED != 0
    }

    /// Whether the mask is inverted when blending (obsolete flag).
    pub fn invert_layer_mask_when_blending(&self) -> (b: bool)
        ensures
            b == (self.flags & INVERT_LAYER_MASK_WHEN_BLENDING != 0),
    {
        self.flags & INVERT_LAYER_MASK_WHEN_BLENDING != 0
    }

    /// Whether the user mask is a by-product of rendering other layer
    /// data rather than a user-authored mask.
    pub fn user_mask_came_from_rendering_other_data(&self) -> (b: bool)
        ensures
            b == (self.flags & USER_MASK_CAME_FROM_RENDERING_OTHER_DATA != 0),
    {
        self.flags & USER_MASK_CAME_FROM_RENDERING_OTHER_DATA != 0
    }

    /// Whether a trailing parameter block (density/feather) follows the
    /// mask records in the stream.
    pub fn user_and_or_vector_masks_have_parameters_applied(&self) -> (b: bool)
        ensures
            b == (self.flags & MASKS_HAVE_PARAMETERS_APPLIED != 0),
    {
        self.flags & MASKS_HAVE_PARAMETERS_APPLIED != 0
    }
}

/// Whether a section of declared length `n` carries a second mask record:
/// after the 18 bytes of the first record, at least 18 more are declared.
pub open spec fn has_second_record(n: int) -> bool {
    n - 18 >= 18
}

/// Whether the first record's flag byte announces a trailing parameter
/// block. `body` is the section's content, the declared bytes after the
/// length prefix.
pub open spec fn params_flag_set(body: Seq<u8>) -> bool {
    body[17] & MASKS_HAVE_PARAMETERS_APPLIED != 0
}

/// Offset within `body` of the parameter block's own flag byte: right
/// after one record (18 bytes) or two (36 bytes).
pub open spec fn param_flags_offset(n: int) -> int {
    if has_second_record(n) {
        36
    } else {
        18
    }
}

/// Size in bytes of the parameter block whose flag byte is `b[0]`: the
/// flag byte itself plus one byte per gated density and eight per gated
/// feather.
pub open spec fn param_block_len(b: Seq<u8>) -> int {
    1 + (if b[0] & USER_MASK_DENSITY != 0 {
        1int
    } else {
        0int
    }) + (if b[0] & USER_MASK_FEATHER != 0 {
        8int
    } else {
        0int
    }) + (if b[0] & VECTOR_MASK_DENSITY != 0 {
        1int
    } else {
        0int
    }) + (if b[0] & VECTOR_MASK_FEATHER != 0 {
        8int
    } else {
        0int
    })
}

/// The raster density carried by a parameter block starting at `b[0]`:
/// the gated byte when its bit is set, else 0.
pub open spec fn param_raster_density(b: Seq<u8>) -> u8 {
    if b[0] & USER_MASK_DENSITY != 0 {
        b[1]
    } else {
        0
    }
}

/// The raster feather bits carried by a parameter block starting at
/// `b[0]`: the gated big-endian 64-bit field when its bit is set, else the
/// bit pattern of 0.0.
pub open spec fn param_raster_feather(b: Seq<u8>) -> u64 {
    if b[0] & USER_MASK_FEATHER != 0 {
        be_u64_at(
            b,
            1 + (if b[0] & USER_MASK_DENSITY != 0 {
                1int
            } else {
                0int
            }),
        ) as u64
    } else {
        0
    }
}

/// The vector density carried by a parameter block starting at `b[0]`,
/// placed after the raster fields.
pub open spec fn param_vector_density(b: Seq<u8>) -> u8 {
    if b[0] & VECTOR_MASK_DENSITY != 0 {
        b[1 + (if b[0] & USER_MASK_DENSITY != 0 {
            1int
        } else {
            0int
        }) + (if b[0] & USER_MASK_FEATHER != 0 {
            8int
        } else {
            0int
        })]
    } else {
        0
    }
}

/// The vector feather bits carried by a parameter block starting at
/// `b[0]`, placed last in the block.
pub open spec fn param_vector_feather(b: Seq<u8>) -> u64 {
    if b[0] & VECTOR_MASK_FEATHER != 0 {
        be_u64_at(
            b,
            1 + (if b[0] & USER_MASK_DENSITY != 0 {
                1int
            } else {
                0int
            }) + (if b[0] & USER_MASK_FEATHER != 0 {
                8int
            } else {
                0int
            }) + (if b[0] & VECTOR_MASK_DENSITY != 0 {
                1int
            } else {
                0int
            }),
        ) as u64
    } else {
        0
    }
}

/// Bytes of `body` that the structured part of the section occupies: the
/// mask records plus the parameter block when one is announced. The
/// declared length must cover at least this; the rest is skipped padding.
pub open spec fn consumed_len(body: Seq<u8>, n: int) -> int {
    let p = param_flags_offset(n);
    if params_flag_set(body) {
        p + param_block_len(body.skip(p))
    } else {
        p
    }
}

/// The raster mask's density: 255 when no parameter block is present,
/// else what the block carries.
pub open spec fn raster_density(body: Seq<u8>, n: int) -> u8 {
    if params_flag_set(body) {
        param_raster_density(body.skip(param_flags_offset(n)))
    } else {
        255
    }
}

/// The raster mask's feather bits: the bit pattern of 0.0 when no
/// parameter block is present, else what the block carries.
pub open spec fn raster_feather_bits(body: Seq<u8>, n: int) -> u64 {
    if params_flag_set(body) {
        param_raster_feather(body.skip(param_flags_offset(n)))
    } else {
        0
    }
}

/// The vector mask's density: 255 when no parameter block is present,
/// else what the block carries.
pub open spec fn vector_density(body: Seq<u8>, n: int) -> u8 {
    if params_flag_set(body) {
        param_vector_density(body.skip(param_flags_offset(n)))
    } else {
        255
    }
}

/// The vector mask's feather bits: the bit pattern of 0.0 when no
/// parameter block is present, else what the block carries.
pub open spec fn vector_feather_bits(body: Seq<u8>, n: int) -> u64 {
    if params_flag_set(body) {
        param_vector_feather(body.skip(param_flags_offset(n)))
    } else {
        0
    }
}

/// The first mask record: rectangle, then default color, then flags, at
/// the very start of `body`. Density and feather come from the parameter
/// block, so they are passed in.
pub open spec fn first_record(body: Seq<u8>, density: u8, feather: u64) -> LayerMaskDataInner {
    LayerMaskDataInner {
        top: be_i32_at(body, 0) as i32,
        left: be_i32_at(body, 4) as i32,
        bottom: be_i32_at(body, 8) as i32,
        right: be_i32_at(body, 12) as i32,
        default_color: body[16],
        flags: body[17],
        density,
        feather,
    }
}

/// The second mask record, at offset 18 of `body`, with the reversed
/// field order this format uses there: flags, then default color, then
/// the rectangle.
pub open spec fn second_record(body: Seq<u8>, density: u8, feather: u64) -> LayerMaskDataInner {
    LayerMaskDataInner {
        top: be_i32_at(body, 20) as i32,
        left: be_i32_at(body, 24) as i32,
        bottom: be_i32_at(body, 28) as i32,
        right: be_i32_at(body, 32) as i32,
        default_color: body[19],
        flags: body[18],
        density,
        feather,
    }
}

/// What a well-formed section with content `body` and declared length `n`
/// decodes to. Below 16 declared bytes there is no structured content;
/// with two records the first is the vector mask; a lone record is the
/// vector mask exactly when its rendered-from-other-data flag is set.
pub open spec fn decoded_section(body: Seq<u8>, n: int) -> LayerMaskData {
    if n < 16 {
        LayerMaskData { vector_mask: None, raster_mask: None }
    } else if has_second_record(n) {
        LayerMaskData {
            vector_mask: Some(
                first_record(body, vector_density(body, n), vector_feather_bits(body, n)),
            ),
            raster_mask: Some(
                second_record(body, raster_density(body, n), raster_feather_bits(body, n)),
            ),
        }
    } else if body[17] & USER_MASK_CAME_FROM_RENDERING_OTHER_DATA != 0 {
        LayerMaskData {
            vector_mask: Some(
                first_record(body, vector_density(body, n), vector_feather_bits(body, n)),
            ),
            raster_mask: None,
        }
    } else {
        LayerMaskData {
            vector_mask: None,
            raster_mask: Some(
                first_record(body, raster_density(body, n), raster_feather_bits(body, n)),
            ),
        }
    }
}

/// Whether the bytes at the cursor, starting with the length prefix, form
/// a section the decoder accepts: the prefix itself is present, the
/// declared bytes are all present, and, when structured content is
/// declared, the declared length covers the records and parameter block
/// its own flags demand.
pub open spec fn decode_ok(s: Seq<u8>) -> bool {
    &&& s.len() >= 4
    &&& {
        let n = be_u32_at(s, 0);
        let body = s.skip(4);
        &&& body.len() >= n
        &&& (n >= 16 ==> consumed_len(body, n) <= n)
    }
}

/// The geometry, color and flag fields of one mask record, before its
/// density and feather are known.
struct MaskRecordFields {
    top: i32,
    left: i32,
    bottom: i32,
    right: i32,
    default_color: u8,
    flags: u8,
}

/// Reads the 18 bytes of a first mask record: rectangle, default color,
/// flags.
fn read_first_record_fields(cursor: &mut PsdCursor) -> (r: Result<MaskRecordFields, PsdLayerError>)
    requires
        old(cursor).wf(),
    ensures
        final(cursor).wf(),
        old(cursor).remaining().len() >= 18 ==> {
            let b = old(cursor).remaining();
            &&& r matches Ok(m)
            &&& m.top == be_i32_at(b, 0)
            &&& m.left == be_i32_at(b, 4)
            &&& m.bottom == be_i32_at(b, 8)
            &&& m.right == be_i32_at(b, 12)
            &&& m.default_color == b[16]
            &&& m.flags == b[17]
            &&& final(cursor).remaining() == b.skip(18)
        },
        old(cursor).remaining().len() < 18 ==> r is Err,
        r is Err ==> r == Err::<MaskRecordFields, PsdLayerError>(
            PsdLayerError::TruncatedOrMalformedSection,
        ),
{
    let ghost b = old(cursor).remaining();
    let top = match cursor.read_i32() {
        Ok(v) => v,
        Err(e) => {
            return Err(e);
        },
    };
    let left = match cursor.read_i32() {
        Ok(v) => v,
        Err(e) => {
            return Err(e);
        },
    };
    let bottom = match cursor.read_i32() {
        Ok(v) => v,
        Err(e) => {
            return Err(e);
        },
    };
    let right = match cursor.read_i32() {
        Ok(v) => v,
        Err(e) => {
            return Err(e);
        },
    };
    let default_color = match cursor.read_u8() {
        Ok(v) => v,
        Err(e) => {
            return Err(e);
        },
    };
    let flags = match cursor.read_u8() {
        Ok(v) => v,
        Err(e) => {
            return Err(e);
        },
    };
    proof {
        assert(cursor.remaining() =~= b.skip(18));
    }
    Ok(MaskRecordFields { top, left, bottom, right, default_color, flags })
}

/// Reads the 18 bytes of a second mask record, whose field order is
/// reversed: flags, default color, rectangle.
fn read_second_record_fields(cursor: &mut PsdCursor) -> (r: Result<MaskRecordFields, PsdLayerError>)
    requires
        old(cursor).wf(),
    ensures
        final(cursor).wf(),
        old(cursor).remaining().len() >= 18 ==> {
            let b = old(cursor).remaining();
            &&& r matches Ok(m)
            &&& m.flags == b[0]
            &&& m.default_color == b[1]
            &&& m.top == be_i32_at(b, 2)
            &&& m.left == be_i32_at(b, 6)
            &&& m.bottom == be_i32_at(b, 10)
            &&& m.right == be_i32_at(b, 14)
            &&& final(cursor).remaining() == b.skip(18)
        },
        old(cursor).remaining().len() < 18 ==> r is Err,
        r is Err ==> r == Err::<MaskRecordFields, PsdLayerError>(
            PsdLayerError::TruncatedOrMalformedSection,
        ),
{
    let ghost b = old(cursor).remaining();
    let flags = match cursor.read_u8() {
        Ok(v) => v,
        Err(e) => {
            return Err(e);
        },
    };
    let default_color = match cursor.read_u8() {
        Ok(v) => v,
        Err(e) => {
            return Err(e);
        },
    };
    let top = match cursor.read_i32() {
        Ok(v) => v,
        Err(e) => {
            return Err(e);
        },
    };
    let left = match cursor.read_i32() {
        Ok(v) => v,
        Err(e) => {
            return Err(e);
        },
    };
    let bottom = match cursor.read_i32() {
        Ok(v) => v,
        Err(e) => {
            return Err(e);
        },
    };
    let right = match cursor.read_i32() {
        Ok(v) => v,
        Err(e) => {
            return Err(e);
        },
    };
    proof {
        assert(cursor.remaining() =~= b.skip(18));
    }
    Ok(MaskRecordFields { top, left, bottom, right, default_color, flags })
}

/// The density and feather overrides a parameter block carries, for each
/// of the raster and vector masks. Fields whose gate bit is clear stay 0:
/// inside a parameter block the default is fully transparent, not the 255
/// used when no block is present at all.
struct ParamValues {
    raster_density: u8,
    raster_feather: u64,
    vector_density: u8,
    vector_feather: u64,
    block_len: u32,
}

/// Reads a parameter block: its flag byte, then each density (1 byte) or
/// feather (8 bytes) field the flag byte gates, in raster-density,
/// raster-feather, vector-density, vector-feather order.
fn read_parameter_block(cursor: &mut PsdCursor) -> (r: Result<ParamValues, PsdLayerError>)
    requires
        old(cursor).wf(),
    ensures
        final(cursor).wf(),
        old(cursor).remaining().len() >= param_block_len(old(cursor).remaining()) ==> {
            let b = old(cursor).remaining();
            &&& r matches Ok(p)
            &&& p.raster_density == param_raster_density(b)
            &&& p.raster_feather == param_raster_feather(b)
            &&& p.vector_density == param_vector_density(b)
            &&& p.vector_feather == param_vector_feather(b)
            &&& p.block_len == param_block_len(b)
            &&& final(cursor).remaining() == b.skip(param_block_len(b))
        },
        old(cursor).remaining().len() < param_block_len(old(cursor).remaining()) ==> r is Err,
        r is Err ==> r == Err::<ParamValues, PsdLayerError>(
            PsdLayerError::TruncatedOrMalformedSection,
        ),
{
    let ghost b = old(cursor).remaining();
    let parameter_flags = match cursor.read_u8() {
        Ok(v) => v,
        Err(e) => {
            return Err(e);
        },
    };
    let mut consumed: u32 = 1;
    let mut raster_density: u8 = 0;
    let mut raster_feather: u64 = 0;
    let mut vector_density: u8 = 0;
    let mut vector_feather: u64 = 0;

    if parameter_flags & USER_MASK_DENSITY != 0 {
        raster_density = match cursor.read_u8() {
            Ok(v) => v,
            Err(e) => {
                return Err(e);
            },
        };
        consumed = consumed + 1;
    }

    if parameter_flags & USER_MASK_FEATHER != 0 {
        raster_feather = match cursor.read_u64() {
            Ok(v) => v,
            Err(e) => {
                return Err(e);
            },
        };
        consumed = consumed + 8;
    }

    if parameter_flags & VECTOR_MASK_DENSITY != 0 {
        vector_density = match cursor.read_u8() {
            Ok(v) => v,
            Err(e) => {
                return Err(e);
            },
        };
        consumed = consumed + 1;
    }

    if parameter_flags & VECTOR_MASK_FEATHER != 0 {
        vector_feather = match cursor.read_u64() {
            Ok(v) => v,
            Err(e) => {
                return Err(e);
            },
        };
        consumed = consumed + 8;
    }
    proof {
        assert(cursor.remaining() =~= b.skip(param_block_len(b)));
    }
    Ok(
        ParamValues {
            raster_density,
            raster_feather,
            vector_density,
            vector_feather,
            block_len: consumed,
        },
    )
}

/// Decodes one layer mask / adjustment layer data sub-section from the
/// cursor. On success, exactly the four prefix bytes plus the declared
/// length have been consumed and the result is the section's decoded
/// content; on any shortfall — a read past the buffer's end, or a declared
/// length too small for what the section's own flags demand — the one
/// error kind is returned and no result is produced.
pub fn read_layer_mask_data(cursor: &mut PsdCursor) -> (r: Result<LayerMaskData, PsdLayerError>)
    requires
        old(cursor).wf(),
    ensures
        final(cursor).wf(),
        decode_ok(old(cursor).remaining()) ==> {
            let s = old(cursor).remaining();
            &&& r matches Ok(d) && d == decoded_section(s.skip(4), be_u32_at(s, 0))
            &&& final(cursor).remaining() == s.skip(4 + be_u32_at(s, 0))
        },
        !decode_ok(old(cursor).remaining()) ==> r == Err::<LayerMaskData, PsdLayerError>(
            PsdLayerError::TruncatedOrMalformedSection,
        ),
{
    let ghost s = old(cursor).remaining();
    let layer_mask_data_len = match cursor.read_u32() {
        Ok(v) => v,
        Err(e) => {
            return Err(e);
        },
    };
    let ghost body = s.skip(4);
    let ghost n = layer_mask_data_len as int;

    if layer_mask_data_len < 16 {
        match cursor.read(layer_mask_data_len) {
            Ok(_) => {},
            Err(e) => {
                return Err(e);
            },
        }
        proof {
            assert(cursor.remaining() =~= s.skip(4 + n));
        }
        return Ok(LayerMaskData { vector_mask: None, raster_mask: None });
    }
    let first = match read_first_record_fields(cursor) {
        Ok(m) => m,
        Err(e) => {
            return Err(e);
        },
    };
    let mut read_count: u32 = 18;

    let has_second_mask = layer_mask_data_len >= read_count + 18;
    let second = if has_second_mask {
        let m = match read_second_record_fields(cursor) {
            Ok(m) => m,
            Err(e) => {
                return Err(e);
            },
        };
        read_count = read_count + 18;
        proof {
            assert(cursor.remaining() =~= body.skip(36));
        }
        Some(m)
    } else {
        None
    };

    let params = if first.flags & MASKS_HAVE_PARAMETERS_APPLIED != 0 {
        let pv = match read_parameter_block(cursor) {
            Ok(pv) => pv,
            Err(e) => {
                return Err(e);
            },
        };
        proof {
            assert(cursor.remaining() =~= body.skip(consumed_len(body, n)));
        }
        read_count = read_count + pv.block_len;
        Some(pv)
    } else {
        None
    };

    // Whatever the declared length covers beyond the structured part is
    // padding and is discarded; a declared length too small to cover the
    // structured part makes the whole section malformed.
    if read_count > layer_mask_data_len {
        return Err(PsdLayerError::TruncatedOrMalformedSection);
    }
    match cursor.read(layer_mask_data_len - read_count) {
        Ok(_) => {},
        Err(e) => {
            return Err(e);
        },
    }
    proof {
        assert(cursor.remaining() =~= s.skip(4 + n));
    }

    let (raster_mask_density, raster_mask_feather, vector_mask_density, vector_mask_feather) =
        match params {
        Some(pv) => (pv.raster_density, pv.raster_feather, pv.vector_density, pv.vector_feather),
        None => (255u8, 0u64, 255u8, 0u64),
    };

    let result = match second {
        Some(m) => LayerMaskData {
            vector_mask: Some(
                LayerMaskDataInner {
                    top: first.top,
                    left: first.left,
                    bottom: first.bottom,
                    right: first.right,
                    default_color: first.default_color,
                    flags: first.flags,
                    density: vector_mask_density,
                    feather: vector_mask_feather,
                },
            ),
            raster_mask: Some(
                LayerMaskDataInner {
                    top: m.top,
                    left: m.left,
                    bottom: m.bottom,
                    right: m.right,
                    default_color: m.default_color,
                    flags: m.flags,
                    density: raster_mask_density,
                    feather: raster_mask_feather,
                },
            ),
        },
        None => {
            if first.flags & USER_MASK_CAME_FROM_RENDERING_OTHER_DATA != 0 {
                LayerMaskData {
                    vector_mask: Some(
                        LayerMaskDataInner {
                            top: first.top,
                            left: first.left,
                            bottom: first.bottom,
                            right: first.right,
                            default_color: first.default_color,
                            flags: first.flags,
                            density: vector_mask_density,
                            feather: vector_mask_feather,
                        },
                    ),
                    raster_mask: None,
                }
            } else {
                LayerMaskData {
                    vector_mask: None,
                    raster_mask: Some(
                        LayerMaskDataInner {
                            top: first.top,
                            left: first.left,
                            bottom: first.bottom,
                            right: first.right,
                            default_color: first.default_color,
                            flags: first.flags,
                            density: raster_mask_density,
                            feather: raster_mask_feather,
                        },
                    ),
                }
            }
        },
    };
    Ok(result)
}

} // verus!
