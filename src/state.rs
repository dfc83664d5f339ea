use vstd::prelude::*;
use crate::order::{views, strictly_sorted};
use crate::registry::{Registry, ShaderEntry, LoadError, has_vertex_stage, is_fragment_name, last_named, first_vertex};

verus! {

/// The inputs of one frame as the shaders see them. `time` and `pointer`
/// are the bit patterns of 32-bit floats (seconds since start, and the
/// pointer position in pixels); `resolution` is the viewport in pixels.
#[derive(Debug, Clone, Copy, PartialEq, Eq)]
pub struct UniformPayload {
    pub time: u32,
    pub pointer: [u32; 2],
    pub resolution: [u32; 2],
}

/// What the surface gave when the next frame was asked of it.
#[derive(Debug, Clone, Copy, PartialEq, Eq)]
pub enum Acquire {
    /// A frame to draw into.
    Ready,
    /// The surface was lost.
    Lost,
    /// The surface no longer matches its configuration.
    Outdated,
    /// No frame came in time.
    Timeout,
    /// The device ran out of memory.
    OutOfMemory,
}

/// One draw of the full-screen triangle with the pipeline at `pipeline`
/// in the registry's name order.
#[derive(Debug, Clone, Copy, PartialEq, Eq)]
pub struct DrawCall {
    pub pipeline: usize,
    pub vertex_count: u32,
    pub instance_count: u32,
}

/// What the host does with the device for one tick.
#[derive(Debug, Clone, Copy, PartialEq, Eq)]
pub enum FramePlan {
    /// Clear the frame, make the draw if there is one, submit and present.
    Present(Option<DrawCall>),
    /// Configure the surface again at this size and draw nothing this tick.
    Reconfigure(u32, u32),
    /// Report the failure and draw nothing; the next tick starts afresh.
    Skip,
}

/// The vertices of the full-screen triangle, which the vertex stage makes
/// from the vertex index alone.
pub const TRIANGLE_VERTICES: u32 = 3;

/// The draw that a delivered frame gets while pipeline `i` is selected.
pub open spec fn triangle_draw(i: int) -> DrawCall {
    DrawCall { pipeline: i as usize, vertex_count: 3, instance_count: 1 }
}

/// The render state: the shader registry with its selection, the surface
/// size, and the uniform block of the next frame.
pub struct State {
    registry: Registry,
    size: (u32, u32),
    uniforms: UniformPayload,
}

impl State {
    /// The shader registry with its selection.
    pub closed spec fn registry_view(&self) -> Registry {
        self.registry
    }

    /// The surface size: the last size with no zero side that was given.
    pub closed spec fn size_view(&self) -> (u32, u32) {
        self.size
    }

    /// The uniform block of the next frame.
    pub closed spec fn uniforms_view(&self) -> UniformPayload {
        self.uniforms
    }

    /// The state is consistent: the registry is, and the resolution in the
    /// uniform block is the surface size.
    pub open spec fn wf(&self) -> bool {
        &&& self.registry_view().wf()
        &&& self.uniforms_view().resolution[0] == self.size_view().0
        &&& self.uniforms_view().resolution[1] == self.size_view().1
    }

    /// The fragment names, ascending.
    pub open spec fn names_view(&self) -> Seq<Seq<char>> {
        self.registry_view().names_view()
    }

    /// The selected name; empty when there is no fragment shader.
    pub open spec fn active_view(&self) -> Seq<char> {
        self.registry_view().active_view()
    }

    /// The state after the uniform block takes a new time and pointer.
    pub closed spec fn updated(self, time: u32, pointer: [u32; 2]) -> State {
        State {
            uniforms: UniformPayload { time, pointer, resolution: self.uniforms.resolution },
            ..self
        }
    }

    /// The state after a resize: a size with a zero side changes nothing.
    pub closed spec fn resized(self, new_size: (u32, u32)) -> State {
        if new_size.0 > 0 && new_size.1 > 0 {
            State {
                size: new_size,
                uniforms: UniformPayload {
                    resolution: [new_size.0, new_size.1],
                    ..self.uniforms
                },
                ..self
            }
        } else {
            self
        }
    }

    /// What a tick does with the device, given what the surface gave.
    pub open spec fn plan(&self, acquired: Acquire) -> FramePlan {
        match acquired {
            Acquire::Ready => FramePlan::Present(
                if self.names_view().len() == 0 {
                    None
                } else {
                    Some(triangle_draw(self.registry_view().active_index_view()))
                },
            ),
            Acquire::Lost | Acquire::Outdated => FramePlan::Reconfigure(self.size_view().0, self.size_view().1),
            Acquire::Timeout | Acquire::OutOfMemory => FramePlan::Skip,
        }
    }

    /// An update changes the time and pointer of the uniform block and
    /// nothing else.
    pub proof fn lemma_updated(self, time: u32, pointer: [u32; 2])
        ensures
            self.updated(time, pointer).registry_view() == self.registry_view(),
            self.updated(time, pointer).size_view() == self.size_view(),
            self.updated(time, pointer).uniforms_view() == (UniformPayload {
                time,
                pointer,
                resolution: self.uniforms_view().resolution,
            }),
    {
    }

    /// A resize to a size with no zero side takes that size and resolution;
    /// any other resize changes nothing.
    pub proof fn lemma_resized(self, new_size: (u32, u32))
        ensures
            self.resized(new_size).registry_view() == self.registry_view(),
            new_size.0 > 0 && new_size.1 > 0 ==> {
                &&& self.resized(new_size).size_view() == new_size
                &&& self.resized(new_size).uniforms_view() == (UniformPayload {
                    resolution: [new_size.0, new_size.1],
                    ..self.uniforms_view()
                })
            },
            !(new_size.0 > 0 && new_size.1 > 0) ==> self.resized(new_size) == self,
    {
    }

    /// Builds the state from the shader entries and the initial surface
    /// size. Without a vertex-stage entry there is no state. The uniform
    /// block starts at time zero, with the pointer at the origin.
    pub fn new(entries: &Vec<ShaderEntry>, size: (u32, u32)) -> (r: Result<State, LoadError>)
        ensures
            r is Err <==> !has_vertex_stage(entries@),
            r matches Ok(s) ==> {
                &&& s.wf()
                &&& s.size_view() == size
                &&& s.uniforms_view() == (UniformPayload { time: 0, pointer: [0, 0], resolution: [size.0, size.1] })
                &&& first_vertex(entries@, s.registry_view().vertex_view() as int)
                &&& forall|n: Seq<char>| #[trigger] s.names_view().contains(n) <==> is_fragment_name(entries@, entries@.len() as int, n)
                &&& forall|i: int| 0 <= i < s.names_view().len() ==>
                        last_named(entries@, #[trigger] s.registry_view().slots_view()[i] as int, s.names_view()[i], entries@.len() as int)
                &&& s.registry_view().active_index_view() == 0
                &&& strictly_sorted(s.names_view())
                &&& s.names_view().len() > 0 ==> s.active_view() == s.names_view()[0]
                &&& s.names_view().len() == 0 ==> s.active_view() == Seq::<char>::empty()
            },
    {
        match Registry::load(entries) {
            Err(e) => Err(e),
            Ok(registry) => {
                proof {
                    registry.lemma_wf();
                }
                Ok(State {
                registry,
                size,
                uniforms: UniformPayload { time: 0, pointer: [0, 0], resolution: [size.0, size.1] },
                })
            },
        }
    }

    /// The registry, for the host to find each pipeline's source.
    pub fn registry(&self) -> (r: &Registry)
        ensures
            *r == self.registry_view(),
    {
        &self.registry
    }

    /// The surface size.
    pub fn size(&self) -> (r: (u32, u32))
        ensures
            r == self.size_view(),
    {
        self.size
    }

    /// The uniform block of the next frame.
    pub fn uniforms(&self) -> (r: UniformPayload)
        ensures
            r == self.uniforms_view(),
    {
        self.uniforms
    }

    /// Selects the fragment shader `name` if there is one, and reports
    /// whether the selection changed; an unknown name, or the name already
    /// selected, changes nothing.
    pub fn set_pipeline(&mut self, name: &str) -> (r: bool)
        requires
            old(self).wf(),
        ensures
            final(self).wf(),
            r == (old(self).names_view().contains(name@) && name@ != old(self).active_view()),
            final(self).names_view() == old(self).names_view(),
            final(self).registry_view().slots_view() == old(self).registry_view().slots_view(),
            final(self).size_view() == old(self).size_view(),
            final(self).uniforms_view() == old(self).uniforms_view(),
            old(self).names_view().contains(name@) ==> final(self).active_view() == name@,
            old(self).names_view().contains(name@) ==> 0 <= final(self).registry_view().active_index_view()
                < final(self).names_view().len(),
            old(self).names_view().contains(name@) ==> final(self).names_view()[final(self).registry_view().active_index_view()] == name@,
            !old(self).names_view().contains(name@) ==> final(self).registry_view().active_index_view()
                == old(self).registry_view().active_index_view(),
    {
        self.registry.select(name)
    }

    /// Takes the new surface size, unless a side is zero, in which case
    /// nothing changes. Returns whether the surface must be configured again.
    pub fn resize(&mut self, new_size: (u32, u32)) -> (r: bool)
        requires
            old(self).wf(),
        ensures
            final(self).wf(),
            *final(self) == old(self).resized(new_size),
            r == (new_size.0 > 0 && new_size.1 > 0),
            final(self).registry_view() == old(self).registry_view(),
            r ==> final(self).size_view() == new_size,
            r ==> final(self).uniforms_view().resolution[0] == new_size.0,
            r ==> final(self).uniforms_view().resolution[1] == new_size.1,
            r ==> final(self).uniforms_view().time == old(self).uniforms_view().time,
            r ==> final(self).uniforms_view().pointer == old(self).uniforms_view().pointer,
            !r ==> *final(self) == *old(self),
    {
        if new_size.0 > 0 && new_size.1 > 0 {
            self.size = new_size;
            self.uniforms.resolution = [new_size.0, new_size.1];
            true
        } else {
            false
        }
    }

    /// Takes the time and pointer of this frame into the uniform block and
    /// returns the block to write to the device. The resolution is the
    /// surface size, whatever the caller knows of the viewport.
    pub fn update(&mut self, time: u32, mouse: [u32; 2]) -> (r: UniformPayload)
        requires
            old(self).wf(),
        ensures
            final(self).wf(),
            *final(self) == old(self).updated(time, mouse),
            final(self).registry_view() == old(self).registry_view(),
            final(self).size_view() == old(self).size_view(),
            r == final(self).uniforms_view(),
            r.time == time,
            r.pointer == mouse,
            r.resolution[0] == old(self).size_view().0,
            r.resolution[1] == old(self).size_view().1,
    {
        self.uniforms.time = time;
        self.uniforms.pointer = mouse;
        self.uniforms
    }

    /// Decides what this tick does with the device, given what the surface
    /// gave: on a frame, one draw of the full-screen triangle with the
    /// selected pipeline (none without a fragment shader), then present; on
    /// a lost or outdated surface, configure it again at the current size and
    /// draw nothing; on any other failure, draw nothing.
    pub fn render(&self, acquired: Acquire) -> (r: FramePlan)
        requires
            self.wf(),
        ensures
            r == self.plan(acquired),
    {
        match acquired {
            Acquire::Ready => {
                match self.registry.active_index() {
                    None => FramePlan::Present(None),
                    Some(i) => FramePlan::Present(
                        Some(DrawCall { pipeline: i, vertex_count: TRIANGLE_VERTICES, instance_count: 1 }),
                    ),
                }
            },
            Acquire::Lost | Acquire::Outdated => FramePlan::Reconfigure(self.size.0, self.size.1),
            Acquire::Timeout | Acquire::OutOfMemory => FramePlan::Skip,
        }
    }

    /// The fragment names, ascending.
    pub fn get_shader_names(&self) -> (r: Vec<String>)
        ensures
            views(r@) == self.names_view(),
    {
        self.registry.names()
    }

    /// The selected name; empty when there is no fragment shader.
    pub fn get_active_shader(&self) -> (r: String)
        requires
            self.wf(),
        ensures
            r@ == self.active_view(),
    {
        self.registry.active()
    }
}

} // verus!
