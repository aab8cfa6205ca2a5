//! The render loop: what is done on each tick, and how many frames have
//! been accumulated.
//!
//! The loop is idle between events. A redraw makes it render until the frame
//! has been presented, a new size makes it resize until the image has been
//! made anew, and a request to close ends it for good. The events come one at
//! a time, so each of them finds the loop idle or closing; an event that
//! finds it otherwise is passed over and changes nothing.
//!
//! A frame for which no image of the surface could be had is skipped: nothing
//! is counted, and the next tick tries again.

use crate::input::{
    disturbed, light_intent, look_scale, move_intent, speed, Controller, Key, LightIntent,
    MoveIntent,
};
use crate::params::IParams;
use crate::scalar::Scalar;
use crate::targets::{tiles, RenderTargets, ResizeAction};
use crate::vector::{Mat3, Vec3};
use vstd::prelude::*;

verus! {

/// What the loop is doing.
#[derive(Clone, Copy, Debug, PartialEq, Eq, Structural)]
pub enum Phase {
    /// Waiting for the next event.
    Idle,
    /// A frame has been planned and not yet presented.
    Rendering,
    /// A new image has been asked for and not yet made.
    Resizing,
    /// The loop has ended.
    Closing,
}

/// What a frame needs that does not take arithmetic on scalars to find.
#[derive(Clone, Copy, Debug, PartialEq, Eq, Structural)]
pub struct FramePlan {
    /// The number of frames accumulated, this one not counted: 0 tells the
    /// kernel to start anew.
    pub accumulated_frames: u32,
    /// The width of the image.
    pub width: u32,
    /// The height of the image.
    pub height: u32,
    /// The number of workgroups across.
    pub groups_x: u32,
    /// The number of workgroups down.
    pub groups_y: u32,
    /// The number of spheres in the sphere buffer.
    pub sphere_count: u32,
    /// The number of meshes in the mesh buffer.
    pub triangle_mesh_count: u32,
    /// The steps by which the camera moves.
    pub movement: MoveIntent,
    /// The steps by which the light turns.
    pub light: LightIntent,
    /// The speed of the camera.
    pub speed: u32,
    /// The number by which mouse movement is scaled.
    pub look_scale: u32,
}

/// What is done about a redraw.
#[derive(Clone, Copy, Debug, PartialEq, Eq, Structural)]
pub enum FrameDecision {
    /// Render the frame as planned and present it, then say so to the loop.
    Render(FramePlan),
    /// Render nothing and ask for the next redraw.
    Skip,
    /// Do nothing.
    Hold,
}

/// The state of the render loop.
#[derive(Clone, Copy, Debug, PartialEq, Eq)]
pub struct RenderLoop {
    pub phase: Phase,
    pub targets: RenderTargets,
    pub accumulated_frames: u32,
    pub sphere_count: u32,
    pub triangle_mesh_count: u32,
}

/// The count of a frame: 0 for a disturbed frame, else one more than the
/// count of the frame before.
pub open spec fn next_count(count: u32, is_disturbed: bool) -> int {
    if is_disturbed {
        0
    } else {
        count + 1
    }
}

/// The larger of two numbers.
pub open spec fn larger(a: u32, b: u32) -> u32 {
    if a >= b {
        a
    } else {
        b
    }
}

/// The plan of a frame with the given count, for the given image, scene and
/// keys.
pub open spec fn plan_for(
    targets: RenderTargets,
    count: u32,
    sphere_count: u32,
    triangle_mesh_count: u32,
    keys: Set<Key>,
) -> FramePlan {
    FramePlan {
        accumulated_frames: count,
        width: targets.spec_width(),
        height: targets.spec_height(),
        groups_x: tiles(targets.spec_width()) as u32,
        groups_y: tiles(targets.spec_height()) as u32,
        sphere_count,
        triangle_mesh_count,
        movement: move_intent(keys),
        light: light_intent(keys),
        speed: speed(keys) as u32,
        look_scale: larger(targets.spec_width(), targets.spec_height()),
    }
}

impl FramePlan {
    /// The parameters of the frame: what the plan holds, and the four values
    /// that the caller computes.
    pub open spec fn spec_params(
        self,
        camera_pos: Vec3,
        camera_dir: Mat3,
        light_dir: Vec3,
        random_seed: Scalar,
    ) -> IParams {
        IParams {
            camera_pos,
            random_seed,
            camera_dir,
            light_dir,
            accumulated_frames: self.accumulated_frames,
            width: self.width,
            height: self.height,
            triangle_mesh_count: self.triangle_mesh_count,
            sphere_count: self.sphere_count,
        }
    }

    /// The parameters of the frame.
    #[verifier::when_used_as_spec(spec_params)]
    pub fn params(
        self,
        camera_pos: Vec3,
        camera_dir: Mat3,
        light_dir: Vec3,
        random_seed: Scalar,
    ) -> (p: IParams)
        ensures
            p == self.spec_params(camera_pos, camera_dir, light_dir, random_seed),
    {
        IParams {
            camera_pos,
            random_seed,
            camera_dir,
            light_dir,
            accumulated_frames: self.accumulated_frames,
            width: self.width,
            height: self.height,
            triangle_mesh_count: self.triangle_mesh_count,
            sphere_count: self.sphere_count,
        }
    }
}

impl RenderLoop {
    /// Whether a redraw would render a frame.
    pub open spec fn renders(self, surface_acquired: bool) -> bool {
        self.phase == Phase::Idle && surface_acquired
    }

    /// An idle loop that has accumulated nothing.
    pub fn new(targets: RenderTargets, sphere_count: u32, triangle_mesh_count: u32) -> (l:
        RenderLoop)
        ensures
            l == (RenderLoop {
                phase: Phase::Idle,
                targets,
                accumulated_frames: 0,
                sphere_count,
                triangle_mesh_count,
            }),
    {
        RenderLoop {
            phase: Phase::Idle,
            targets,
            accumulated_frames: 0,
            sphere_count,
            triangle_mesh_count,
        }
    }

    /// Whether a redraw with these inputs can be counted: it renders nothing,
    /// or the frame is disturbed, or the count has room for one more.
    pub fn can_count(&self, controller: &Controller, mouse_moved: bool, surface_acquired: bool) -> (r:
        bool)
        ensures
            r == (self.renders(surface_acquired) && !disturbed(controller.keys@, mouse_moved)
                ==> self.accumulated_frames < u32::MAX),
    {
        !(self.phase == Phase::Idle && surface_acquired) || controller.is_disturbed(mouse_moved)
            || self.accumulated_frames < u32::MAX
    }

    /// Takes in a redraw. `mouse_moved` says whether the mouse has moved the
    /// camera since the frame before, and `surface_acquired` whether an image
    /// of the surface could be had for the frame.
    ///
    /// An idle loop with an image renders: the count is 0 if the frame is
    /// disturbed and one more than before if not. An idle loop without an
    /// image skips the frame and changes nothing. A loop that is not idle
    /// holds and changes nothing.
    pub fn redraw(&mut self, controller: &Controller, mouse_moved: bool, surface_acquired: bool) -> (decision:
        FrameDecision)
        requires
            old(self).renders(surface_acquired) && !disturbed(controller.keys@, mouse_moved)
                ==> old(self).accumulated_frames < u32::MAX,
        ensures
            old(self).renders(surface_acquired) ==> {
                &&& final(self).accumulated_frames == next_count(
                    old(self).accumulated_frames,
                    disturbed(controller.keys@, mouse_moved),
                )
                &&& *final(self) == (RenderLoop {
                    phase: Phase::Rendering,
                    accumulated_frames: final(self).accumulated_frames,
                    ..*old(self)
                })
                &&& decision == FrameDecision::Render(
                    plan_for(
                        old(self).targets,
                        final(self).accumulated_frames,
                        old(self).sphere_count,
                        old(self).triangle_mesh_count,
                        controller.keys@,
                    ),
                )
            },
            !old(self).renders(surface_acquired) ==> *final(self) == *old(self),
            old(self).phase == Phase::Idle && !surface_acquired ==> decision
                == FrameDecision::Skip,
            old(self).phase != Phase::Idle ==> decision == FrameDecision::Hold,
    {
        if self.phase != Phase::Idle {
            return FrameDecision::Hold;
        }
        if !surface_acquired {
            return FrameDecision::Skip;
        }
        if controller.is_disturbed(mouse_moved) {
            self.accumulated_frames = 0;
        } else {
            self.accumulated_frames = self.accumulated_frames + 1;
        }
        self.phase = Phase::Rendering;
        let groups = self.targets.workgroups();
        let width = self.targets.width();
        let height = self.targets.height();
        FrameDecision::Render(
            FramePlan {
                accumulated_frames: self.accumulated_frames,
                width,
                height,
                groups_x: groups.0,
                groups_y: groups.1,
                sphere_count: self.sphere_count,
                triangle_mesh_count: self.triangle_mesh_count,
                movement: controller.movement(),
                light: controller.light_turn(),
                speed: controller.camera_speed(),
                look_scale: look_scale(width, height),
            },
        )
    }

    /// Takes in that the frame has been presented. A rendering loop becomes
    /// idle, and the next redraw is to be asked for. Any other loop stays as
    /// it is.
    pub fn presented(&mut self) -> (again: bool)
        ensures
            again == (old(self).phase == Phase::Rendering),
            *final(self) == (RenderLoop {
                phase: if old(self).phase == Phase::Rendering {
                    Phase::Idle
                } else {
                    old(self).phase
                },
                ..*old(self)
            }),
    {
        if self.phase == Phase::Rendering {
            self.phase = Phase::Idle;
            true
        } else {
            false
        }
    }

    /// Takes in a new size of the surface. An idle loop hands the size to
    /// its targets, and resizes if they are made anew. A size without an
    /// area, and a loop that is not idle, change nothing.
    pub fn resize(&mut self, width: u32, height: u32) -> (action: ResizeAction)
        ensures
            old(self).phase == Phase::Idle && width > 0 && height > 0 ==> {
                &&& final(self).phase == Phase::Resizing
                &&& final(self).targets.spec_width() == width
                &&& final(self).targets.spec_height() == height
                &&& final(self).targets.spec_generation() != old(self).targets.spec_generation()
                &&& action == (ResizeAction::Rebuild {
                    width,
                    height,
                    generation: final(self).targets.spec_generation(),
                })
                &&& *final(self) == (RenderLoop {
                    phase: Phase::Resizing,
                    targets: final(self).targets,
                    ..*old(self)
                })
            },
            old(self).phase != Phase::Idle || width == 0 || height == 0 ==> *final(self) == *old(
                self,
            ) && action == ResizeAction::Ignore,
    {
        if self.phase != Phase::Idle {
            return ResizeAction::Ignore;
        }
        let mut targets = self.targets;
        let action = targets.resize(width, height);
        match action {
            ResizeAction::Ignore => {},
            ResizeAction::Rebuild { .. } => {
                self.targets = targets;
                self.phase = Phase::Resizing;
            },
        }
        action
    }

    /// Takes in that the image has been made anew and bound. A resizing loop
    /// becomes idle. Any other loop stays as it is.
    pub fn rebuilt(&mut self)
        ensures
            *final(self) == (RenderLoop {
                phase: if old(self).phase == Phase::Resizing {
                    Phase::Idle
                } else {
                    old(self).phase
                },
                ..*old(self)
            }),
    {
        if self.phase == Phase::Resizing {
            self.phase = Phase::Idle;
        }
    }

    /// Ends the loop.
    pub fn close(&mut self)
        ensures
            *final(self) == (RenderLoop { phase: Phase::Closing, ..*old(self) }),
    {
        self.phase = Phase::Closing;
    }

    /// Whether the loop has ended.
    pub fn is_closing(&self) -> (r: bool)
        ensures
            r == (self.phase == Phase::Closing),
    {
        self.phase == Phase::Closing
    }
}

/// What a planned frame tells the kernel agrees with the loop: the counts of
/// the scene are those the loop was made with, the size is that of the
/// current image, and the workgroups cover the image.
pub proof fn lemma_plan_agrees_with_loop(
    l: RenderLoop,
    count: u32,
    keys: Set<Key>,
    camera_pos: Vec3,
    camera_dir: Mat3,
    light_dir: Vec3,
    random_seed: Scalar,
)
    ensures
        ({
            let plan = plan_for(l.targets, count, l.sphere_count, l.triangle_mesh_count, keys);
            let p = plan.spec_params(camera_pos, camera_dir, light_dir, random_seed);
            &&& p.sphere_count == l.sphere_count
            &&& p.triangle_mesh_count == l.triangle_mesh_count
            &&& p.accumulated_frames == count
            &&& p.width == l.targets.spec_width()
            &&& p.height == l.targets.spec_height()
            &&& plan.groups_x * crate::targets::TILE >= p.width
            &&& plan.groups_y * crate::targets::TILE >= p.height
        }),
{
    crate::targets::lemma_tiles_cover(l.targets.spec_width());
    crate::targets::lemma_tiles_cover(l.targets.spec_height());
}

} // verus!
