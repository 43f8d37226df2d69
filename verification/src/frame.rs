//! The frame renderer's state machine and its failure taxonomy.
//!
//! One rendering iteration acquires a presentable frame, records and submits
//! draw work, and presents. Acquisition can fail; each failure is classified
//! as transient (reconfigure the surface and skip the frame), fatal (stop
//! the loop), or reportable (drop the frame and carry on).

use vstd::prelude::*;

verus! {

/// Why acquiring a presentable frame failed.
#[derive(Clone, Copy, PartialEq, Eq, Structural, Debug)]
pub enum AcquireError {
    Lost,
    Outdated,
    OutOfMemory,
    Timeout,
}

/// The loop's reaction to a failed acquisition.
#[derive(Clone, Copy, PartialEq, Eq, Structural, Debug)]
pub enum FrameRecovery {
    /// Transient: reconfigure the surface at the current size and skip the
    /// frame.
    Reconfigure,
    /// Fatal: the event loop must stop.
    Terminate,
    /// Reportable: note the dropped frame and continue.
    Report,
}

/// The failure taxonomy: a lost or outdated surface is transient, running
/// out of memory is fatal, anything else is reported and survived.
pub open spec fn recovery_spec(e: AcquireError) -> FrameRecovery {
    match e {
        AcquireError::Lost => FrameRecovery::Reconfigure,
        AcquireError::Outdated => FrameRecovery::Reconfigure,
        AcquireError::OutOfMemory => FrameRecovery::Terminate,
        AcquireError::Timeout => FrameRecovery::Report,
    }
}

/// Classifies one acquisition failure.
pub fn classify_acquire_error(e: &AcquireError) -> (r: FrameRecovery)
    ensures
        r == recovery_spec(*e),
{
    match *e {
        AcquireError::Lost => FrameRecovery::Reconfigure,
        AcquireError::Outdated => FrameRecovery::Reconfigure,
        AcquireError::OutOfMemory => FrameRecovery::Terminate,
        AcquireError::Timeout => FrameRecovery::Report,
    }
}

/// Where the frame renderer stands within one rendering iteration.
#[derive(Clone, Copy, PartialEq, Eq, Structural, Debug)]
pub enum FrameStage {
    Idle,
    Acquiring,
    Recording,
    Submitted,
    Presented,
    Invalid,
}

/// The events that move the renderer from stage to stage.
#[derive(Clone, Copy, PartialEq, Eq, Structural, Debug)]
pub enum FrameEvent {
    /// Start acquiring a presentable frame.
    Begin,
    /// The acquisition returned a frame.
    Acquired,
    /// The acquisition failed.
    Failed(AcquireError),
    /// The surface was reconfigured after a failure.
    Recovered,
    /// Draw commands were recorded and submitted.
    Recorded,
    /// The frame was handed to the surface for presentation.
    Present,
    /// The iteration is over.
    Complete,
}

/// The renderer's transition function. An event that does not apply to the
/// current stage leaves the stage unchanged.
pub open spec fn frame_step(s: FrameStage, e: FrameEvent) -> FrameStage {
    match (s, e) {
        (FrameStage::Idle, FrameEvent::Begin) => FrameStage::Acquiring,
        (FrameStage::Acquiring, FrameEvent::Acquired) => FrameStage::Recording,
        (FrameStage::Acquiring, FrameEvent::Failed(_)) => FrameStage::Invalid,
        (FrameStage::Invalid, FrameEvent::Recovered) => FrameStage::Idle,
        (FrameStage::Recording, FrameEvent::Recorded) => FrameStage::Submitted,
        (FrameStage::Submitted, FrameEvent::Present) => FrameStage::Presented,
        (FrameStage::Presented, FrameEvent::Complete) => FrameStage::Idle,
        _ => s,
    }
}

/// The frame renderer's control state: its stage, and whether the per-frame
/// uniforms were written since the last presented frame. Draw work may only
/// be recorded against current uniforms.
#[derive(Clone, Copy, PartialEq, Eq, Structural, Debug)]
pub struct FrameCycle {
    pub stage: FrameStage,
    pub uniforms_current: bool,
}

impl FrameCycle {
    /// A fresh renderer: idle, uniforms not yet written.
    pub fn new() -> (c: FrameCycle)
        ensures
            c.stage == FrameStage::Idle,
            !c.uniforms_current,
    {
        FrameCycle { stage: FrameStage::Idle, uniforms_current: false }
    }

    /// Records that the camera matrix was recomputed and written to the
    /// per-frame uniform resource. Must precede `begin_acquire` within the
    /// same iteration.
    pub fn mark_updated(&mut self)
        requires
            old(self).stage == FrameStage::Idle,
        ensures
            final(self).stage == old(self).stage,
            final(self).uniforms_current,
    {
        self.uniforms_current = true;
    }

    /// Starts acquiring a presentable frame. The uniforms written by the
    /// preceding update are consumed by this iteration.
    pub fn begin_acquire(&mut self)
        requires
            old(self).stage == FrameStage::Idle,
            old(self).uniforms_current,
        ensures
            final(self).stage == frame_step(old(self).stage, FrameEvent::Begin),
            final(self).uniforms_current == old(self).uniforms_current,
    {
        self.stage = FrameStage::Acquiring;
    }

    /// The acquisition returned a frame: draw work can be recorded.
    pub fn acquired(&mut self)
        requires
            old(self).stage == FrameStage::Acquiring,
        ensures
            final(self).stage == frame_step(old(self).stage, FrameEvent::Acquired),
            final(self).uniforms_current == old(self).uniforms_current,
    {
        self.stage = FrameStage::Recording;
    }

    /// The acquisition failed: the surface is invalid, and the error's
    /// classification says how the loop reacts.
    pub fn acquire_failed(&mut self, e: &AcquireError) -> (r: FrameRecovery)
        requires
            old(self).stage == FrameStage::Acquiring,
        ensures
            final(self).stage == frame_step(old(self).stage, FrameEvent::Failed(*e)),
            r == recovery_spec(*e),
    {
        self.stage = FrameStage::Invalid;
        self.uniforms_current = false;
        classify_acquire_error(e)
    }

    /// The surface was reconfigured after a failure: back to idle, the
    /// skipped frame's uniforms to be rewritten.
    pub fn recovered(&mut self)
        requires
            old(self).stage == FrameStage::Invalid,
        ensures
            final(self).stage == frame_step(old(self).stage, FrameEvent::Recovered),
            final(self).stage == FrameStage::Idle,
    {
        self.stage = FrameStage::Idle;
    }

    /// Draw commands were recorded and submitted to the queue.
    pub fn recorded(&mut self)
        requires
            old(self).stage == FrameStage::Recording,
        ensures
            final(self).stage == frame_step(old(self).stage, FrameEvent::Recorded),
            final(self).uniforms_current == old(self).uniforms_current,
    {
        self.stage = FrameStage::Submitted;
    }

    /// The frame was handed to the surface for presentation.
    pub fn presented(&mut self)
        requires
            old(self).stage == FrameStage::Submitted,
        ensures
            final(self).stage == frame_step(old(self).stage, FrameEvent::Present),
            final(self).uniforms_current == old(self).uniforms_current,
    {
        self.stage = FrameStage::Presented;
    }

    /// The iteration is over; the uniforms are consumed.
    pub fn complete(&mut self)
        requires
            old(self).stage == FrameStage::Presented,
        ensures
            final(self).stage == frame_step(old(self).stage, FrameEvent::Complete),
            final(self).stage == FrameStage::Idle,
            !final(self).uniforms_current,
    {
        self.stage = FrameStage::Idle;
        self.uniforms_current = false;
    }
}

/// One recorded command of the render pass, in issue order.
#[derive(Clone, Copy, PartialEq, Eq, Structural, Debug)]
pub enum DrawCommand {
    /// Begin the pass, clearing colour to the background and depth to the
    /// far value (front-to-back ordering wins on smaller depth).
    BeginClearPass,
    /// Bind the compiled pipeline.
    SetPipeline,
    /// Bind the texture resources at slot 0.
    BindTextureGroup,
    /// Bind the camera uniform at slot 1.
    BindCameraGroup,
    /// Bind the per-vertex stream at slot 0.
    SetVertexBuffer,
    /// Bind the per-instance stream at slot 1.
    SetInstanceBuffer,
    /// Bind the index buffer.
    SetIndexBuffer,
    /// One indexed draw over the full index range, instanced across
    /// `[0, instance_count)`.
    DrawIndexed { index_count: u32, instance_count: u32 },
    /// End the pass, releasing the recorder for submission.
    EndPass,
}

/// The fixed recording order of one frame's render pass.
pub open spec fn draw_plan_spec(index_count: u32, instance_count: u32) -> Seq<DrawCommand> {
    seq![
        DrawCommand::BeginClearPass,
        DrawCommand::SetPipeline,
        DrawCommand::BindTextureGroup,
        DrawCommand::BindCameraGroup,
        DrawCommand::SetVertexBuffer,
        DrawCommand::SetInstanceBuffer,
        DrawCommand::SetIndexBuffer,
        DrawCommand::DrawIndexed { index_count, instance_count },
        DrawCommand::EndPass,
    ]
}

/// Records one frame's draw work: clear, bind pipeline and resources, issue
/// the single instanced indexed draw, end the pass — in exactly that order.
pub fn record_draw_plan(index_count: u32, instance_count: u32) -> (r: Vec<DrawCommand>)
    ensures
        r@ == draw_plan_spec(index_count, instance_count),
{
    let mut plan: Vec<DrawCommand> = Vec::new();
    plan.push(DrawCommand::BeginClearPass);
    plan.push(DrawCommand::SetPipeline);
    plan.push(DrawCommand::BindTextureGroup);
    plan.push(DrawCommand::BindCameraGroup);
    plan.push(DrawCommand::SetVertexBuffer);
    plan.push(DrawCommand::SetInstanceBuffer);
    plan.push(DrawCommand::SetIndexBuffer);
    plan.push(DrawCommand::DrawIndexed { index_count, instance_count });
    plan.push(DrawCommand::EndPass);
    proof {
        assert(plan@ =~= draw_plan_spec(index_count, instance_count));
    }
    plan
}

/// A frame acquisition failure is fatal exactly when it reports an
/// out-of-memory condition; a lost or outdated surface never stops the loop.
pub proof fn lemma_only_out_of_memory_terminates(e: AcquireError)
    ensures
        (recovery_spec(e) == FrameRecovery::Terminate) <==> (e == AcquireError::OutOfMemory),
{
}

/// A lost surface is survivable: a failed acquisition classified as
/// transient sends the renderer through `Invalid` back to `Idle` on
/// recovery, and from there a successful iteration runs to `Presented` and
/// completes; the loop never had to stop.
pub proof fn lemma_lost_surface_recovers(e: AcquireError)
    requires
        recovery_spec(e) == FrameRecovery::Reconfigure,
    ensures
        recovery_spec(e) != FrameRecovery::Terminate,
        frame_step(
            frame_step(FrameStage::Acquiring, FrameEvent::Failed(e)),
            FrameEvent::Recovered,
        ) == FrameStage::Idle,
        frame_step(
            frame_step(
                frame_step(
                    frame_step(FrameStage::Idle, FrameEvent::Begin),
                    FrameEvent::Acquired,
                ),
                FrameEvent::Recorded,
            ),
            FrameEvent::Present,
        ) == FrameStage::Presented,
{
}

} // verus!
