use vstd::prelude::*;

verus! {

/// What an [`Animation`] holds.
pub struct AnimationView {
    /// Path of the animation bundle.
    pub file: Seq<char>,
    /// Whether the animation loops.
    pub anim_loop: bool,
    /// First frame of the loop, if any.
    pub loop_from: Option<u64>,
    /// Last frame of the loop, if any.
    pub loop_to: Option<u64>,
    /// Frame from which the animation restarts, if any.
    pub loop_restart: Option<u64>,
    /// Whether the cog is frozen in a pose.
    pub pose: bool,
    /// Frame of the pose, if any.
    pub pose_frame: Option<u64>,
}

/// An animation that the cog performs. A pose takes precedence over looping:
/// with `pose` set the cog stands still at `pose_frame`, whatever the loop fields hold.
#[derive(Clone, Debug)]
pub struct Animation {
    file: String,
    anim_loop: bool,
    loop_from: Option<u64>,
    loop_to: Option<u64>,
    loop_restart: Option<u64>,
    pose: bool,
    pose_frame: Option<u64>,
}

impl View for Animation {
    type V = AnimationView;

    closed spec fn view(&self) -> AnimationView {
        AnimationView {
            file: self.file@,
            anim_loop: self.anim_loop,
            loop_from: self.loop_from,
            loop_to: self.loop_to,
            loop_restart: self.loop_restart,
            pose: self.pose,
            pose_frame: self.pose_frame,
        }
    }
}

impl Animation {
    /// Builds an animation from each of its fields, unchecked: no field is cleared
    /// or filled in because of another.
    pub fn new(
        file: String,
        anim_loop: bool,
        pose: bool,
        pose_frame: Option<u64>,
        loop_from: Option<u64>,
        loop_to: Option<u64>,
        loop_restart: Option<u64>,
    ) -> (r: Animation)
        ensures
            r@ == (AnimationView {
                file: file@,
                anim_loop: anim_loop,
                loop_from: loop_from,
                loop_to: loop_to,
                loop_restart: loop_restart,
                pose: pose,
                pose_frame: pose_frame,
            }),
    {
        Animation { file, anim_loop, loop_from, loop_to, loop_restart, pose, pose_frame }
    }

    /// Reads `file`.
    pub fn file(&self) -> (r: &String)
        ensures
            r@ == self@.file,
    {
        &self.file
    }

    /// Replaces `file`, leaving every other field as it was.
    pub fn set_file(&mut self, file: String)
        ensures
            final(self)@ == (AnimationView { file: file@, ..old(self)@ }),
    {
        self.file = file;
    }

    /// Reads `anim_loop`.
    pub fn anim_loop(&self) -> (r: bool)
        ensures
            r == self@.anim_loop,
    {
        self.anim_loop
    }

    /// Replaces `anim_loop`, leaving every other field as it was.
    pub fn set_anim_loop(&mut self, anim_loop: bool)
        ensures
            final(self)@ == (AnimationView { anim_loop: anim_loop, ..old(self)@ }),
    {
        self.anim_loop = anim_loop;
    }

    /// Reads `loop_from`.
    pub fn loop_from(&self) -> (r: Option<u64>)
        ensures
            r == self@.loop_from,
    {
        self.loop_from
    }

    /// Replaces `loop_from`, leaving every other field as it was.
    pub fn set_loop_from(&mut self, loop_from: Option<u64>)
        ensures
            final(self)@ == (AnimationView { loop_from: loop_from, ..old(self)@ }),
    {
        self.loop_from = loop_from;
    }

    /// Reads `loop_to`.
    pub fn loop_to(&self) -> (r: Option<u64>)
        ensures
            r == self@.loop_to,
    {
        self.loop_to
    }

    /// Replaces `loop_to`, leaving every other field as it was.
    pub fn set_loop_to(&mut self, loop_to: Option<u64>)
        ensures
            final(self)@ == (AnimationView { loop_to: loop_to, ..old(self)@ }),
    {
        self.loop_to = loop_to;
    }

    /// Reads `loop_restart`.
    pub fn loop_restart(&self) -> (r: Option<u64>)
        ensures
            r == self@.loop_restart,
    {
        self.loop_restart
    }

    /// Replaces `loop_restart`, leaving every other field as it was.
    pub fn set_loop_restart(&mut self, loop_restart: Option<u64>)
        ensures
            final(self)@ == (AnimationView { loop_restart: loop_restart, ..old(self)@ }),
    {
        self.loop_restart = loop_restart;
    }

    /// Reads `pose`.
    pub fn pose(&self) -> (r: bool)
        ensures
            r == self@.pose,
    {
        self.pose
    }

    /// Replaces `pose`, leaving every other field as it was.
    pub fn set_pose(&mut self, pose: bool)
        ensures
            final(self)@ == (AnimationView { pose: pose, ..old(self)@ }),
    {
        self.pose = pose;
    }

    /// Reads `pose_frame`.
    pub fn pose_frame(&self) -> (r: Option<u64>)
        ensures
            r == self@.pose_frame,
    {
        self.pose_frame
    }

    /// Replaces `pose_frame`, leaving every other field as it was.
    pub fn set_pose_frame(&mut self, pose_frame: Option<u64>)
        ensures
            final(self)@ == (AnimationView { pose_frame: pose_frame, ..old(self)@ }),
    {
        self.pose_frame = pose_frame;
    }
}

} // verus!
