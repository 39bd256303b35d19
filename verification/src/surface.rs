//! Surface configuration choices: the canvas size and the preferred surface
//! format and alpha mode among those the adapter supports.

use vstd::prelude::*;

verus! {

/// The surface texture formats as far as the choice of format reads them.
#[derive(PartialEq, Eq, Structural, Debug, Clone, Copy)]
pub enum SurfaceFormatKind {
    Bgra8Unorm,
    Rgba8Unorm,
    /// Any other format.
    Other,
}

/// The composite alpha modes as far as the choice of alpha mode reads them.
#[derive(PartialEq, Eq, Structural, Debug, Clone, Copy)]
pub enum AlphaModeKind {
    Opaque,
    /// Any other alpha mode.
    Other,
}

/// A non-sRGB 8-bit unsigned-normalized format is preferred.
pub open spec fn is_preferred_format(k: SurfaceFormatKind) -> bool {
    k == SurfaceFormatKind::Bgra8Unorm || k == SurfaceFormatKind::Rgba8Unorm
}

/// The opaque alpha mode is preferred.
pub open spec fn is_preferred_alpha_mode(k: AlphaModeKind) -> bool {
    k == AlphaModeKind::Opaque
}

/// `i` is the first index of `s` at which `pred` holds, or 0 when it holds
/// nowhere.
pub open spec fn first_match_or_first<A>(s: Seq<A>, pred: spec_fn(A) -> bool, i: int) -> bool {
    &&& 0 <= i < s.len()
    &&& (exists|j: int| 0 <= j < s.len() && pred(s[j])) ==> {
        &&& pred(s[i])
        &&& forall|j: int| 0 <= j < i ==> !pred(#[trigger] s[j])
    }
    &&& (forall|j: int| 0 <= j < s.len() ==> !pred(#[trigger] s[j])) ==> i == 0
}

/// Exactly `Bgra8Unorm` and `Rgba8Unorm` are preferred formats, and exactly
/// `Opaque` is the preferred alpha mode.
pub proof fn lemma_preferences()
    ensures
        is_preferred_format(SurfaceFormatKind::Bgra8Unorm),
        is_preferred_format(SurfaceFormatKind::Rgba8Unorm),
        !is_preferred_format(SurfaceFormatKind::Other),
        is_preferred_alpha_mode(AlphaModeKind::Opaque),
        !is_preferred_alpha_mode(AlphaModeKind::Other),
{
}

/// The chosen index is determined by the list: it is the least index whose
/// entry is preferred, and 0 when no entry is.
pub proof fn lemma_choice_is_first<A>(s: Seq<A>, pred: spec_fn(A) -> bool, i: int, j: int)
    requires
        first_match_or_first(s, pred, i),
    ensures
        0 <= j < s.len() && pred(s[j]) ==> pred(s[i]) && i <= j,
        first_match_or_first(s, pred, j) ==> i == j,
{
    if 0 <= j < s.len() && pred(s[j]) {
        assert(exists|k: int| 0 <= k < s.len() && pred(s[k]));
    }
    if first_match_or_first(s, pred, j) {
        if exists|k: int| 0 <= k < s.len() && pred(s[k]) {
            assert(pred(s[i]) && pred(s[j]));
            if i < j {
                assert(!pred(s[i]));
            }
            if j < i {
                assert(!pred(s[j]));
            }
        }
    }
}

/// The size to give a canvas dimension from its client size as reported by
/// the page: the client size read as unsigned, or nothing when that is zero
/// (the canvas keeps its size then).
pub fn canvas_dimension(client_size: i32) -> (r: Option<u32>)
    ensures
        r == (if (client_size as u32) > 0 {
            Some(client_size as u32)
        } else {
            None
        }),
{
    let size = client_size as u32;
    if size > 0 {
        Some(size)
    } else {
        None
    }
}

/// Index of the surface format to use: the first `Bgra8Unorm` or
/// `Rgba8Unorm` format, else the first format.
pub fn preferred_format_index(formats: &Vec<SurfaceFormatKind>) -> (i: usize)
    requires
        formats.len() > 0,
    ensures
        first_match_or_first(formats@, |k: SurfaceFormatKind| is_preferred_format(k), i as int),
{
    let mut i: usize = 0;
    while i < formats.len()
        invariant
            i <= formats.len(),
            forall|j: int| 0 <= j < i ==> !is_preferred_format(#[trigger] formats@[j]),
        decreases formats.len() - i,
    {
        let k = formats[i];
        if k == SurfaceFormatKind::Bgra8Unorm || k == SurfaceFormatKind::Rgba8Unorm {
            return i;
        }
        i = i + 1;
    }
    0
}

/// Index of the alpha mode to use: the first `Opaque` mode, else the first
/// mode.
pub fn preferred_alpha_mode_index(modes: &Vec<AlphaModeKind>) -> (i: usize)
    requires
        modes.len() > 0,
    ensures
        first_match_or_first(modes@, |k: AlphaModeKind| is_preferred_alpha_mode(k), i as int),
{
    let mut i: usize = 0;
    while i < modes.len()
        invariant
            i <= modes.len(),
            forall|j: int| 0 <= j < i ==> !is_preferred_alpha_mode(#[trigger] modes@[j]),
        decreases modes.len() - i,
    {
        if modes[i] == AlphaModeKind::Opaque {
            return i;
        }
        i = i + 1;
    }
    0
}

} // verus!
