use vstd::prelude::*;
use crate::state::{State, Acquire, FramePlan, triangle_draw};

verus! {

/// A resize with a zero side leaves the whole state, the surface size and
/// the resolution in the uniform block included, as it was.
pub proof fn resize_to_zero_changes_nothing(s: State, width: u32, height: u32)
    requires
        width == 0 || height == 0,
    ensures
        s.resized((width, height)) == s,
        s.resized((width, height)).size_view() == s.size_view(),
        s.resized((width, height)).uniforms_view() == s.uniforms_view(),
{
    s.lemma_resized((width, height));
}

/// After a resize to a size with no zero side, the next update writes that
/// size as the resolution, whatever time and pointer it is given.
pub proof fn resize_then_update_writes_resolution(s: State, width: u32, height: u32, time: u32, pointer: [u32; 2])
    requires
        width > 0,
        height > 0,
    ensures
        s.resized((width, height)).updated(time, pointer).uniforms_view().resolution[0] == width,
        s.resized((width, height)).updated(time, pointer).uniforms_view().resolution[1] == height,
        s.resized((width, height)).updated(time, pointer).uniforms_view().time == time,
        s.resized((width, height)).updated(time, pointer).uniforms_view().pointer == pointer,
{
    s.lemma_resized((width, height));
    s.resized((width, height)).lemma_updated(time, pointer);
}

/// A tick that finds the surface lost or outdated draws nothing and asks
/// for the surface to be configured again at the current size; the next
/// tick, after its update, draws the triangle once with the selected
/// pipeline when the surface delivers a frame.
pub proof fn lost_surface_recovers_next_tick(s: State, failure: Acquire, time: u32, pointer: [u32; 2])
    requires
        s.wf(),
        failure is Lost || failure is Outdated,
        s.names_view().len() > 0,
    ensures
        s.plan(failure) == FramePlan::Reconfigure(s.size_view().0, s.size_view().1),
        s.updated(time, pointer).plan(Acquire::Ready) == FramePlan::Present(
            Some(triangle_draw(s.registry_view().active_index_view())),
        ),
{
    s.lemma_updated(time, pointer);
}

/// Every delivered frame, whichever pipeline is selected, makes exactly one
/// draw of three vertices and one instance with the selected pipeline.
pub proof fn delivered_frame_draws_once(s: State)
    requires
        s.wf(),
        s.names_view().len() > 0,
    ensures
        s.plan(Acquire::Ready) matches FramePlan::Present(Some(d)) && d.vertex_count == 3
            && d.instance_count == 1 && d.pipeline == s.registry_view().active_index_view()
            && s.names_view()[d.pipeline as int] == s.active_view(),
{
    s.registry_view().lemma_wf();
    let i = s.registry_view().active_index_view();
    assert(s.active_view() == s.names_view()[i]);
    assert(triangle_draw(i).pipeline as int == i);
}

} // verus!
