use vstd::prelude::*;

verus! {

use crate::input::{KeyBoardState, ModifiersState, State, KEY_COUNT};
use crate::mat::{mat_identity, mat_mul, mat_mul_entry, mat_rat_eq, Mat4R};
use crate::rat::{rat_add, rat_eq, rat_mul, Rat};
use crate::scheduler::{
    tick_action, tick_next, FrameScheduler, SchedulerAction, SchedulerEvent, SchedulerState,
};
use crate::transform::{identity_transform, world_mat_view, Transform};

/// Near plane of the deliberately thin view frustum, as a rational value.
pub open spec fn cam_near() -> (int, int) {
    (1, 100)
}

/// Far plane of the frustum. With `far - near == 1`, the depth scale
/// `far / (far - near)` is `far` itself.
pub open spec fn cam_far() -> (int, int) {
    (101, 100)
}

/// Row-major entries of the left-handed perspective projection for aspect
/// ratio `a_num / a_den`, with a 90-degree vertical field of view (unit focal
/// scale), near plane 1/100 and far plane 101/100:
///
/// ```text
/// [ 1/aspect  0  0         0          ]
/// [ 0         1  0         0          ]
/// [ 0         0  far/(far-near)  -far*near/(far-near) ]
/// [ 0         0  1         0          ]
/// ```
pub open spec fn projection_view(a_num: int, a_den: int) -> Seq<(int, int)> {
    seq![
        (a_den, a_num), (0int, 1int), (0int, 1int), (0int, 1int),
        (0int, 1int), (1int, 1int), (0int, 1int), (0int, 1int),
        (0int, 1int), (0int, 1int), (101int, 100int), (-101int, 10000int),
        (0int, 1int), (0int, 1int), (1int, 1int), (0int, 1int),
    ]
}

/// Row-major entries of the exact inverse of [`projection_view`].
pub open spec fn inv_projection_view(a_num: int, a_den: int) -> Seq<(int, int)> {
    seq![
        (a_num, a_den), (0int, 1int), (0int, 1int), (0int, 1int),
        (0int, 1int), (1int, 1int), (0int, 1int), (0int, 1int),
        (0int, 1int), (0int, 1int), (0int, 1int), (1int, 1int),
        (0int, 1int), (0int, 1int), (-10000int, 101int), (100int, 1int),
    ]
}

/// The projection matrix value cached by a [`Camera`] with aspect ratio `a`.
pub open spec fn projection_mat(a: Rat) -> Mat4R {
    Mat4R {
        m00: Rat { num: a.den, den: a.num }, m01: Rat { num: 0, den: 1 },
        m02: Rat { num: 0, den: 1 }, m03: Rat { num: 0, den: 1 },
        m10: Rat { num: 0, den: 1 }, m11: Rat { num: 1, den: 1 },
        m12: Rat { num: 0, den: 1 }, m13: Rat { num: 0, den: 1 },
        m20: Rat { num: 0, den: 1 }, m21: Rat { num: 0, den: 1 },
        m22: Rat { num: 101, den: 100 }, m23: Rat { num: -101i64, den: 10000 },
        m30: Rat { num: 0, den: 1 }, m31: Rat { num: 0, den: 1 },
        m32: Rat { num: 1, den: 1 }, m33: Rat { num: 0, den: 1 },
    }
}

/// The inverse projection matrix value cached by a [`Camera`] with aspect
/// ratio `a`.
pub open spec fn inv_projection_mat(a: Rat) -> Mat4R {
    Mat4R {
        m00: Rat { num: a.num, den: a.den }, m01: Rat { num: 0, den: 1 },
        m02: Rat { num: 0, den: 1 }, m03: Rat { num: 0, den: 1 },
        m10: Rat { num: 0, den: 1 }, m11: Rat { num: 1, den: 1 },
        m12: Rat { num: 0, den: 1 }, m13: Rat { num: 0, den: 1 },
        m20: Rat { num: 0, den: 1 }, m21: Rat { num: 0, den: 1 },
        m22: Rat { num: 0, den: 1 }, m23: Rat { num: 1, den: 1 },
        m30: Rat { num: 0, den: 1 }, m31: Rat { num: 0, den: 1 },
        m32: Rat { num: -10000i64, den: 101 }, m33: Rat { num: 100, den: 1 },
    }
}

/// A perspective camera: a rigid placement plus the cached projection and
/// inverse projection for the current aspect ratio. The cached matrices are
/// always those of [`projection_mat`] / [`inv_projection_mat`]; they are
/// recomputed from scratch — never patched — when the aspect ratio changes.
#[derive(Clone, Copy, Debug, PartialEq, Eq, Structural)]
pub struct Camera {
    pub transform: Transform,
    pub world_projection: Mat4R,
    pub inv_world_projection: Mat4R,
}

impl Camera {
    /// The camera caches exactly the matrices of some valid aspect ratio.
    pub open spec fn projection_consistent_with(self, a: Rat) -> bool {
        &&& a.num >= 1
        &&& a.den >= 1
        &&& self.world_projection == projection_mat(a)
        &&& self.inv_world_projection == inv_projection_mat(a)
    }

    /// Build a camera for the given aspect ratio (height over width, as the
    /// window-resize handler computes it). Field of view, near and far are
    /// fixed; both the projection and its inverse are computed here.
    pub fn new(transform: Transform, aspect_ratio: Rat) -> (c: Camera)
        requires
            aspect_ratio.num >= 1,
            aspect_ratio.den >= 1,
        ensures
            c.transform == transform,
            c.projection_consistent_with(aspect_ratio),
    {
        Camera {
            transform,
            world_projection: Mat4R {
                m00: Rat { num: aspect_ratio.den, den: aspect_ratio.num },
                m01: Rat { num: 0, den: 1 },
                m02: Rat { num: 0, den: 1 }, m03: Rat { num: 0, den: 1 },
                m10: Rat { num: 0, den: 1 }, m11: Rat { num: 1, den: 1 },
                m12: Rat { num: 0, den: 1 }, m13: Rat { num: 0, den: 1 },
                m20: Rat { num: 0, den: 1 }, m21: Rat { num: 0, den: 1 },
                m22: Rat { num: 101, den: 100 }, m23: Rat { num: -101i64, den: 10000 },
                m30: Rat { num: 0, den: 1 }, m31: Rat { num: 0, den: 1 },
                m32: Rat { num: 1, den: 1 }, m33: Rat { num: 0, den: 1 },
            },
            inv_world_projection: Mat4R {
                m00: Rat { num: aspect_ratio.num, den: aspect_ratio.den },
                m01: Rat { num: 0, den: 1 },
                m02: Rat { num: 0, den: 1 }, m03: Rat { num: 0, den: 1 },
                m10: Rat { num: 0, den: 1 }, m11: Rat { num: 1, den: 1 },
                m12: Rat { num: 0, den: 1 }, m13: Rat { num: 0, den: 1 },
                m20: Rat { num: 0, den: 1 }, m21: Rat { num: 0, den: 1 },
                m22: Rat { num: 0, den: 1 }, m23: Rat { num: 1, den: 1 },
                m30: Rat { num: 0, den: 1 }, m31: Rat { num: 0, den: 1 },
                m32: Rat { num: -10000i64, den: 101 }, m33: Rat { num: 100, den: 1 },
            },
        }
    }

    /// The cached projection matrix.
    pub fn world_projection(&self) -> (m: &Mat4R)
        ensures
            *m == self.world_projection,
    {
        &self.world_projection
    }

    /// The cached inverse projection matrix.
    pub fn inv_world_projection(&self) -> (m: &Mat4R)
        ensures
            *m == self.inv_world_projection,
    {
        &self.inv_world_projection
    }

    /// The view matrix: the world matrix of the camera's placement.
    pub fn view_matrix(&self) -> (m: Mat4R)
        requires
            self.transform.translation.wf(),
            self.transform.rotation.bounded(),
        ensures
            m@ =~= world_mat_view(self.transform),
            m.wf(),
    {
        self.transform.mat()
    }

    /// Recompute the projection and its inverse for a window of the given
    /// size (aspect ratio `height / width`). The result depends on the new
    /// size alone, so repeating a resize leaves the matrices identical.
    pub fn update_aspect_ratio(&mut self, width: u32, height: u32)
        requires
            width >= 1,
            height >= 1,
        ensures
            final(self).transform == old(self).transform,
            final(self).projection_consistent_with(
                (Rat { num: height as i64, den: width as i64 }),
            ),
    {
        let refreshed = Camera::new(
            self.transform,
            Rat { num: height as i64, den: width as i64 },
        );
        self.world_projection = refreshed.world_projection;
        self.inv_world_projection = refreshed.inv_world_projection;
    }
}

/// The scenes this kernel knows how to stage: only the shell-texture scene
/// itself so far. The type exists so that scene-dependent settings have an
/// owner.
#[derive(Clone, Copy, Debug, PartialEq, Eq, Structural)]
pub enum Scene {
    Shells,
}

/// Settings a scene provides to the kernel.
pub trait SceneTrait {
    /// Where the camera starts when the scene is entered.
    fn initial_camera_transform() -> Transform;
}

/// An event of the host window system, reduced to plain values.
#[derive(Clone, Copy, Debug, PartialEq, Eq, Structural)]
pub enum AppEvent {
    /// The window surface now measures `width` by `height` pixels.
    Resized { width: u32, height: u32 },
    /// The key with this key-code ordinal went down or up.
    Key { code: usize, pressed: bool },
    /// The whole modifier set was replaced.
    ModifiersChanged { modifiers: ModifiersState },
    /// The host demands an immediate repaint.
    RedrawRequested,
    /// The host asked the program to shut down.
    CloseRequested,
    /// Any other wake-up; it only drives the frame pacer.
    Other,
}

/// Which scheduler event an application event stands for: closing and
/// forced repaints keep their meaning, everything else is an ordinary tick.
pub open spec fn sched_event_of(event: AppEvent) -> SchedulerEvent {
    match event {
        AppEvent::RedrawRequested => SchedulerEvent::RedrawRequested,
        AppEvent::CloseRequested => SchedulerEvent::CloseRequested,
        _ => SchedulerEvent::Tick,
    }
}

/// The key table after a tick's decay pass: held states kept, every
/// changed-this-tick flag cleared.
pub open spec fn decayed_keys(keys: Seq<State>) -> Seq<State> {
    Seq::new(keys.len(), |i: int| State { held_down: keys[i].held_down, this_frame: false })
}

/// The application-state root: the camera, the input latch and the frame
/// pacer. The host window and GPU context live outside; they hand events in
/// and carry draw commands out as plain values.
#[derive(Debug)]
pub struct AppState {
    pub camera: Camera,
    pub keyboard_state: KeyBoardState,
    pub scheduler: FrameScheduler,
}

impl AppState {
    /// The key table covers the whole key-code space.
    pub open spec fn wf(self) -> bool {
        self.keyboard_state.wf()
    }

    /// Fresh state for a window of the given size: identity camera placement,
    /// aspect ratio `height / width`, fresh latch, nothing drawn yet.
    pub fn new(width: u32, height: u32) -> (s: Self)
        requires
            width >= 1,
            height >= 1,
        ensures
            s.wf(),
            s.camera.transform == identity_transform(),
            s.camera.projection_consistent_with(
                (Rat { num: height as i64, den: width as i64 }),
            ),
            s.keyboard_state.modifier_state == (ModifiersState {
                shift: false,
                ctrl: false,
                alt: false,
                logo: false,
            }),
            forall|i: int|
                0 <= i < s.keyboard_state.keys.len() ==> #[trigger] s.keyboard_state.keys[i]
                    == (State { held_down: false, this_frame: false }),
            s.scheduler.state == SchedulerState::AwaitingFirstDraw,
    {
        AppState {
            camera: Camera::new(
                Transform::default(),
                Rat { num: height as i64, den: width as i64 },
            ),
            keyboard_state: KeyBoardState::default(),
            scheduler: FrameScheduler::new(),
        }
    }

    /// One tick of the event loop. First the latch's changed-this-tick flags
    /// decay — exactly once per tick, whether or not a draw follows. Then the
    /// event takes effect: a resize rebuilds the camera's projection
    /// synchronously (a zero-sized surface is ignored), a key or modifier
    /// event mutates the latch. Last, the frame pacer decides what the
    /// caller must do now.
    pub fn handle_event(&mut self, now_nanos: u64, event: AppEvent) -> (action: SchedulerAction)
        requires
            old(self).wf(),
            old(self).scheduler.tick_ok(now_nanos),
        ensures
            final(self).wf(),
            final(self).scheduler.state == tick_next(
                old(self).scheduler.state,
                now_nanos,
                sched_event_of(event),
            ),
            action == tick_action(old(self).scheduler.state, now_nanos, sched_event_of(event)),
            ({
                let dk = decayed_keys(old(self).keyboard_state.keys@);
                match event {
                    AppEvent::Key { code, pressed } => final(self).keyboard_state.keys@ =~= (
                    if code < KEY_COUNT {
                        dk.update(code as int, (State { held_down: pressed, this_frame: true }))
                    } else {
                        dk
                    }),
                    _ => final(self).keyboard_state.keys@ =~= dk,
                }
            }),
            ({
                match event {
                    AppEvent::ModifiersChanged { modifiers } =>
                        final(self).keyboard_state.modifier_state == modifiers,
                    _ => final(self).keyboard_state.modifier_state
                        == old(self).keyboard_state.modifier_state,
                }
            }),
            ({
                match event {
                    AppEvent::Resized { width, height } => {
                        if width >= 1 && height >= 1 {
                            &&& final(self).camera.transform == old(self).camera.transform
                            &&& final(self).camera.projection_consistent_with(
                                (Rat { num: height as i64, den: width as i64 }),
                            )
                        } else {
                            final(self).camera == old(self).camera
                        }
                    },
                    _ => final(self).camera == old(self).camera,
                }
            }),
    {
        self.keyboard_state.downgrade_keys();
        match event {
            AppEvent::Resized { width, height } => {
                if width >= 1 && height >= 1 {
                    self.camera.update_aspect_ratio(width, height);
                }
            },
            AppEvent::Key { code, pressed } => {
                self.keyboard_state.update_keys(code, pressed);
            },
            AppEvent::ModifiersChanged { modifiers } => {
                self.keyboard_state.update_modifier_state(modifiers);
            },
            _ => {},
        }
        let sched_event = match event {
            AppEvent::RedrawRequested => SchedulerEvent::RedrawRequested,
            AppEvent::CloseRequested => SchedulerEvent::CloseRequested,
            _ => SchedulerEvent::Tick,
        };
        self.scheduler.tick(now_nanos, sched_event)
    }
}

/// Law: the cached matrices are a function of the aspect ratio alone, so
/// repeating [`Camera::update_aspect_ratio`] with the same size leaves them
/// bit-identical: any two cameras consistent with the same aspect ratio hold
/// the same projection and inverse.
pub proof fn lemma_update_aspect_ratio_idempotent(c1: Camera, c2: Camera, a: Rat)
    requires
        c1.projection_consistent_with(a),
        c2.projection_consistent_with(a),
    ensures
        c1.world_projection == c2.world_projection,
        c1.inv_world_projection == c2.inv_world_projection,
{
}

/// The cached projection and inverse projection agree with the row-major
/// rational views used by the matrix algebra.
pub proof fn lemma_camera_matrix_views(a: Rat)
    requires
        a.num >= 1,
        a.den >= 1,
    ensures
        projection_mat(a)@ =~= projection_view(a.num as int, a.den as int),
        inv_projection_mat(a)@ =~= inv_projection_view(a.num as int, a.den as int),
{
}

/// Law: the perspective projection and its cached inverse multiply to the
/// identity — exactly, for every valid aspect ratio.
pub proof fn lemma_projection_inverse_roundtrip(a_num: int, a_den: int)
    requires
        a_num >= 1,
        a_den >= 1,
    ensures
        mat_rat_eq(
            mat_mul(projection_view(a_num, a_den), inv_projection_view(a_num, a_den)),
            mat_identity(),
        ),
{
    broadcast use vstd::arithmetic::mul::group_mul_basics;
    broadcast use vstd::arithmetic::mul::lemma_mul_by_zero_is_zero;
    broadcast use vstd::arithmetic::mul::lemma_mul_is_commutative;
    let p = projection_view(a_num, a_den);
    let q = inv_projection_view(a_num, a_den);
    let m = mat_mul(p, q);
    assert forall|k: int| 0 <= k < 16 implies rat_eq(#[trigger] m[k], mat_identity()[k]) by {
        if k == 0 {
            assert(rat_eq(m[0], mat_identity()[0]));
        } else if k == 1 {
            assert(rat_eq(m[1], mat_identity()[1]));
        } else if k == 2 {
            assert(rat_eq(m[2], mat_identity()[2]));
        } else if k == 3 {
            assert(rat_eq(m[3], mat_identity()[3]));
        } else if k == 4 {
            assert(rat_eq(m[4], mat_identity()[4]));
        } else if k == 5 {
            assert(rat_eq(m[5], mat_identity()[5]));
        } else if k == 6 {
            assert(rat_eq(m[6], mat_identity()[6]));
        } else if k == 7 {
            assert(rat_eq(m[7], mat_identity()[7]));
        } else if k == 8 {
            assert(rat_eq(m[8], mat_identity()[8]));
        } else if k == 9 {
            assert(rat_eq(m[9], mat_identity()[9]));
        } else if k == 10 {
            assert(rat_eq(m[10], mat_identity()[10]));
        } else if k == 11 {
            let e = mat_mul_entry(p, q, 2, 3);
            assert(m[11] == e);
            let t23 = rat_add(rat_mul(p[10], q[11]), rat_mul(p[11], q[15]));
            assert(t23 == (101int * 10000 + (-10100int) * 100, 100int * 10000));
            assert(rat_eq(m[11], mat_identity()[11]));
        } else if k == 12 {
            assert(rat_eq(m[12], mat_identity()[12]));
        } else if k == 13 {
            assert(rat_eq(m[13], mat_identity()[13]));
        } else if k == 14 {
            assert(rat_eq(m[14], mat_identity()[14]));
        } else {
            assert(rat_eq(m[15], mat_identity()[15]));
        }
    }
}

/// Law, restated over a camera value: whatever valid aspect ratio a camera
/// was last given, its cached projection times its cached inverse is the
/// identity.
pub proof fn lemma_camera_roundtrip(c: Camera, a: Rat)
    requires
        c.projection_consistent_with(a),
    ensures
        mat_rat_eq(
            mat_mul(c.world_projection@, c.inv_world_projection@),
            mat_identity(),
        ),
{
    lemma_camera_matrix_views(a);
    lemma_projection_inverse_roundtrip(a.num as int, a.den as int);
}

} // verus!
