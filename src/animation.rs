//! The hit/idle animation: which frame each activity signal shows, and when
//! the idle frame comes back.
use vstd::prelude::*;
use crate::config::{joined, join_path, ANIM_DURATION_MS, HIT_LEFT_ASSET, HIT_RIGHT_ASSET, IDLE_ASSET};

verus! {

/// The paw that a hit frame shows.
#[derive(Debug, Clone, Copy, PartialEq, Eq, Structural)]
pub enum Side {
    Left,
    Right,
}

pub open spec fn flip(s: Side) -> Side {
    match s {
        Side::Left => Side::Right,
        Side::Right => Side::Left,
    }
}

/// The three frames' image files.
pub struct AssetPaths {
    pub idle: String,
    pub hit_left: String,
    pub hit_right: String,
}

/// One of the three frames, for reporting a missing image.
#[derive(Debug, Clone, Copy, PartialEq, Eq, Structural)]
pub enum AssetKind {
    Idle,
    HitLeft,
    HitRight,
}

impl AssetPaths {
    /// The frames' files inside `asset_dir`.
    pub fn new(asset_dir: &str) -> (r: AssetPaths)
        ensures
            r.idle@ == joined(asset_dir@, IDLE_ASSET@),
            r.hit_left@ == joined(asset_dir@, HIT_LEFT_ASSET@),
            r.hit_right@ == joined(asset_dir@, HIT_RIGHT_ASSET@),
    {
        proof {
            reveal_strlit("idle.png");
            reveal_strlit("hit_left.png");
            reveal_strlit("hit_right.png");
        }
        AssetPaths {
            idle: join_path(asset_dir, IDLE_ASSET),
            hit_left: join_path(asset_dir, HIT_LEFT_ASSET),
            hit_right: join_path(asset_dir, HIT_RIGHT_ASSET),
        }
    }

    /// The first frame, in the order idle, hit left, hit right, whose file is
    /// not there; `None` when all three are.
    pub fn first_missing(idle_exists: bool, hit_left_exists: bool, hit_right_exists: bool) -> (r:
        Option<AssetKind>)
        ensures
            r == (if !idle_exists {
                Some(AssetKind::Idle)
            } else if !hit_left_exists {
                Some(AssetKind::HitLeft)
            } else if !hit_right_exists {
                Some(AssetKind::HitRight)
            } else {
                None
            }),
    {
        if !idle_exists {
            Some(AssetKind::Idle)
        } else if !hit_left_exists {
            Some(AssetKind::HitLeft)
        } else if !hit_right_exists {
            Some(AssetKind::HitRight)
        } else {
            None
        }
    }

    pub open spec fn hit_path(&self, side: Side) -> Seq<char> {
        match side {
            Side::Left => self.hit_left@,
            Side::Right => self.hit_right@,
        }
    }
}

/// What one activity signal does to the display: show `show` now, and show
/// `revert_to` once `revert_after_ms` have passed. Every signal carries its
/// own revert; none cancels an earlier one.
pub struct AnimationStep {
    pub side: Side,
    pub show: String,
    pub revert_to: String,
    pub revert_after_ms: u32,
}

/// Alternates the hit frames, one signal at a time.
pub struct Animator {
    next_left: bool,
    assets: AssetPaths,
}

impl Animator {
    /// The side that the next signal shows.
    pub closed spec fn next_side_spec(&self) -> Side {
        if self.next_left {
            Side::Left
        } else {
            Side::Right
        }
    }

    pub closed spec fn assets_spec(&self) -> AssetPaths {
        self.assets
    }

    pub fn new(assets: AssetPaths) -> (r: Animator)
        ensures
            r.next_side_spec() == Side::Left,
            r.assets_spec() == assets,
    {
        Animator { next_left: true, assets }
    }

    pub fn next_side(&self) -> (r: Side)
        ensures
            r == self.next_side_spec(),
    {
        if self.next_left {
            Side::Left
        } else {
            Side::Right
        }
    }

    /// Takes one activity signal: shows the hit frame of the current side,
    /// flips the side for the next signal, and schedules the idle frame.
    pub fn animate(&mut self) -> (r: AnimationStep)
        ensures
            r.side == old(self).next_side_spec(),
            r.show@ == old(self).assets_spec().hit_path(r.side),
            r.revert_to@ == old(self).assets_spec().idle@,
            r.revert_after_ms == ANIM_DURATION_MS,
            final(self).next_side_spec() == flip(old(self).next_side_spec()),
            final(self).assets_spec() == old(self).assets_spec(),
    {
        let use_left = self.next_left;
        self.next_left = !use_left;
        let side = if use_left {
            Side::Left
        } else {
            Side::Right
        };
        let show = if use_left {
            self.assets.hit_left.clone()
        } else {
            self.assets.hit_right.clone()
        };
        AnimationStep {
            side,
            show,
            revert_to: self.assets.idle.clone(),
            revert_after_ms: ANIM_DURATION_MS,
        }
    }
}

} // verus!
