//! Post-processing of transforms and colors, and animations.
pub mod oscillate;

use vstd::prelude::*;

verus! {

/// Transform post-processing steps of the post-update schedule.
#[derive(PartialEq, Eq, Structural, Clone, Copy, Debug)]
pub enum PostTransformSystems {
    /// Blend via transform multiplication (add translation, add rotation, multiply scale).
    Blend,
    /// Apply facing (may multiply translation.x by -1).
    ApplyFacing,
    /// Apply finishing touches to the global transform, like rounding to the nearest pixel.
    Finish,
}

/// Color post-processing steps of the post-update schedule.
#[derive(PartialEq, Eq, Structural, Clone, Copy, Debug)]
pub enum PostColorSystems {
    /// Blend via color multiplication (multiply RGBA).
    Blend,
}

/// The system sets of the post-update schedule that animations are ordered by.
#[derive(PartialEq, Eq, Structural, Clone, Copy, Debug)]
pub enum PostUpdateSet {
    /// The engine's UI layout pass.
    UiPostLayout,
    /// The physics engine's sync to transforms.
    PhysicsSync,
    /// Backups of animated values are inserted.
    BackupInsert,
    /// Animated values are saved to their backups.
    BackupSave,
    Transform(PostTransformSystems),
    /// The engine's transform propagation.
    TransformPropagate,
    Color(PostColorSystems),
}

/// The order in which backups are taken: after layout and physics.
pub fn backup_order() -> (chain: Vec<Vec<PostUpdateSet>>)
    ensures
        chain@.len() == 2,
        chain@[0]@ == seq![
            PostUpdateSet::UiPostLayout,
            PostUpdateSet::PhysicsSync,
            PostUpdateSet::BackupInsert,
        ],
        chain@[1]@ == seq![PostUpdateSet::BackupSave],
{
    vec![
        vec![
            PostUpdateSet::UiPostLayout,
            PostUpdateSet::PhysicsSync,
            PostUpdateSet::BackupInsert,
        ],
        vec![PostUpdateSet::BackupSave],
    ]
}

/// The order in which transforms are post-processed: from the saved backup, blend,
/// apply facing, propagate, then finish.
pub fn post_transform_order() -> (chain: Vec<PostUpdateSet>)
    ensures
        chain@ == seq![
            PostUpdateSet::BackupSave,
            PostUpdateSet::Transform(PostTransformSystems::Blend),
            PostUpdateSet::Transform(PostTransformSystems::ApplyFacing),
            PostUpdateSet::TransformPropagate,
            PostUpdateSet::Transform(PostTransformSystems::Finish),
        ],
{
    vec![
        PostUpdateSet::BackupSave,
        PostUpdateSet::Transform(PostTransformSystems::Blend),
        PostUpdateSet::Transform(PostTransformSystems::ApplyFacing),
        PostUpdateSet::TransformPropagate,
        PostUpdateSet::Transform(PostTransformSystems::Finish),
    ]
}

/// Colors are blended after the backup is saved.
pub fn post_color_order() -> (chain: Vec<PostUpdateSet>)
    ensures
        chain@ == seq![PostUpdateSet::BackupSave, PostUpdateSet::Color(PostColorSystems::Blend)],
{
    vec![PostUpdateSet::BackupSave, PostUpdateSet::Color(PostColorSystems::Blend)]
}

} // verus!
