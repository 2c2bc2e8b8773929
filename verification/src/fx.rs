//! The boundary to the outside effect compiler and runtime.  An effect is
//! an opaque animatable object produced by compiling a textual description;
//! the manager keeps at most one effect per layer tag, advances them by
//! elapsed time and paints them over a frame.

use vstd::prelude::*;

verus! {

#[verifier::external_type_specification]
#[verifier::external_body]
pub struct ExEffect(tachyonfx::Effect);

/// The set of active effects, at most one per layer tag.  It holds the
/// outside effect manager, whose type Verus cannot see through (its key
/// parameter is bound by an outside trait), so the whole struct is opaque
/// and is read and written only through the trusted items below.
#[verifier::external_body]
pub struct EffectLayers {
    inner: tachyonfx::EffectManager<u8>,
}

#[verifier::external_type_specification]
#[verifier::external_body]
pub struct ExFrame<'a>(ratatui::Frame<'a>);

/// Whether the outside effect compiler accepts the given effect
/// description; compilation is a function of the source alone.
pub uninterp spec fn dsl_compiles(source: Seq<char>) -> bool;

/// The layer tags occupied by the effects the manager currently holds.
/// Registering under an occupied tag cancels the earlier effect, so each
/// tag names at most one live effect; the cancelled one is swept on the
/// next processing step.
pub uninterp spec fn layer_tags(m: EffectLayers) -> Set<u8>;

/// The target buffer of a frame — its area and styled cells — as a grid
/// of encoded plain values: a faithful image of everything the frame
/// shows.  The encoding is fixed but not specified; contracts use it only
/// to state that a frame is carried unchanged or produced
/// deterministically.
pub uninterp spec fn frame_view(f: ratatui::Frame) -> Seq<Seq<u64>>;

/// What blitting a source buffer onto a target buffer yields, over the
/// buffers' encoded images; copying cells at the source's native offset,
/// clipped to the target, is a function of the two buffers alone.
pub uninterp spec fn blit_view(src: Seq<Seq<u64>>, dst: Seq<Seq<u64>>) -> Seq<Seq<u64>>;

/// Relies on tachyonfx's EffectDsl: `EffectDsl::new().compiler().compile(s)`
/// parses the description and succeeds or fails as a function of the source
/// text alone; the error's display form carries its message, source context
/// and line/column location.
#[verifier::external_body]
pub fn compile_dsl_effect(source: &str) -> (r: Result<tachyonfx::Effect, String>)
    ensures
        r is Ok <==> dsl_compiles(source@),
{
    tachyonfx::dsl::EffectDsl::new().compiler().compile(source).map_err(|e| format!("{}", e))
}

/// Relies on EffectManager::default: a manager that starts with no effects.
#[verifier::external_body]
pub fn new_effect_manager() -> (m: EffectLayers)
    ensures
        layer_tags(m) == Set::<u8>::empty(),
{
    EffectLayers { inner: tachyonfx::EffectManager::default() }
}

/// Relies on EffectManager::add_unique_effect: registers the effect under
/// the given layer tag, cancelling any effect already registered under the
/// same tag rather than stacking on top of it.
#[verifier::external_body]
pub fn add_unique_effect(m: &mut EffectLayers, tag: u8, effect: tachyonfx::Effect)
    ensures
        layer_tags(*final(m)) == layer_tags(*old(m)).insert(tag),
{
    m.inner.add_unique_effect(tag, effect);
}

/// Relies on EffectManager::process_effects: advances every active effect
/// by the elapsed milliseconds, paints them into the frame's buffer within
/// the frame's area, and drops the effects that have finished.  It
/// occupies no new tag, and with nothing held it leaves the frame
/// untouched.
#[verifier::external_body]
pub fn process_effects<'a>(
    m: &mut EffectLayers,
    elapsed_ms: u32,
    frame: &mut ratatui::Frame<'a>,
)
    ensures
        layer_tags(*final(m)).subset_of(layer_tags(*old(m))),
        layer_tags(*old(m)) == Set::<u8>::empty() ==> frame_view(*final(frame)) == frame_view(
            *old(frame),
        ) && layer_tags(*final(m)) == Set::<u8>::empty(),
{
    let area = frame.area();
    m.inner.process_effects(tachyonfx::Duration::from_millis(elapsed_ms), frame.buffer_mut(), area);
}

/// Relies on tachyonfx::blit_buffer: copies the source buffer's cells into
/// the frame's buffer at the source's native offset; cells that fall
/// outside the target area are simply not copied.
#[verifier::external_body]
pub fn blit_canvas<'a>(src: &ratatui::buffer::Buffer, frame: &mut ratatui::Frame<'a>)
    ensures
        frame_view(*final(frame)) == blit_view(
            crate::ansi::buffer_view(*src),
            frame_view(*old(frame)),
        ),
{
    tachyonfx::blit_buffer(src, frame.buffer_mut(), ratatui::layout::Offset::default());
}

} // verus!
