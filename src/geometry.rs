use vstd::prelude::*;

use crate::catalog::{catalog_lookup, fallback_spec, is_recognized, Resolution};

verus! {

/// What to do with one requested resolution.
#[derive(Clone, Copy, Debug, PartialEq, Eq, Structural)]
pub enum Decision {
    /// Transcode to this geometry.
    Proceed(Resolution),
    /// The geometry would upscale the source: produce nothing.
    Skip,
}

/// The geometry a label stands for: its catalog entry, or the fallback.
pub open spec fn target_for(label: Seq<char>) -> Resolution {
    match catalog_lookup(label) {
        Some(r) => r,
        None => fallback_spec(),
    }
}

/// The selector's rule: never upscale on either axis.
pub open spec fn select_spec(source_width: u32, source_height: u32, label: Seq<char>) -> Decision {
    let t = target_for(label);
    if t.width > source_width || t.height > source_height {
        Decision::Skip
    } else {
        Decision::Proceed(t)
    }
}

/// The geometry a label stands for; an unknown label silently becomes the fallback.
pub fn target_geometry(label: &str) -> (r: Resolution)
    ensures
        r == target_for(label@),
{
    match Resolution::from_string(label) {
        Some(r) => r,
        None => Resolution::fallback(),
    }
}

/// Decides the effective geometry of `label` for a source of the given size.
pub fn select(source_width: u32, source_height: u32, label: &str) -> (r: Decision)
    ensures
        r == select_spec(source_width, source_height, label@),
{
    let target = target_geometry(label);
    if target.fits_within(source_width, source_height) {
        Decision::Proceed(target)
    } else {
        Decision::Skip
    }
}

/// A recognized label whose catalog entry fits the source proceeds with exactly
/// that entry.
pub proof fn lemma_recognized_fits_proceeds(source_width: u32, source_height: u32, label: Seq<char>)
    requires
        is_recognized(label),
        catalog_lookup(label).unwrap().width <= source_width,
        catalog_lookup(label).unwrap().height <= source_height,
    ensures
        select_spec(source_width, source_height, label) == Decision::Proceed(
            catalog_lookup(label).unwrap(),
        ),
{
}

/// An unrecognized label on a source of at least 854x480 proceeds at 854x480
/// rather than failing.
pub proof fn lemma_unrecognized_falls_back(source_width: u32, source_height: u32, label: Seq<char>)
    requires
        !is_recognized(label),
        source_width >= 854,
        source_height >= 480,
    ensures
        select_spec(source_width, source_height, label) == Decision::Proceed(
            Resolution { width: 854, height: 480 },
        ),
{
}

/// A label whose geometry is wider or taller than the source is skipped; each
/// axis alone is enough.
pub proof fn lemma_upscale_skips(source_width: u32, source_height: u32, label: Seq<char>)
    requires
        target_for(label).width > source_width || target_for(label).height > source_height,
    ensures
        select_spec(source_width, source_height, label) == Decision::Skip,
{
}

/// Whatever the label, a selected geometry never exceeds the source.
pub proof fn lemma_never_upscales(source_width: u32, source_height: u32, label: Seq<char>)
    ensures
        match select_spec(source_width, source_height, label) {
            Decision::Proceed(t) => t.width <= source_width && t.height <= source_height,
            Decision::Skip => true,
        },
{
}

} // verus!
