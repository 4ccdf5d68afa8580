//! The shared character resource: speed, facing, animation linkage.
//!
//! The animation player is modelled as a log of requested clip names;
//! the host engine's real player consumes those requests outside this
//! crate. `play_animation` is the single side-effecting operation of the
//! resource: with a player bound it appends the clip name to the log,
//! without one it performs nothing (the host merely logs a warning).

use vstd::prelude::*;

use crate::direction::DirectionType;
use crate::direction::Vec2;

verus! {

/// The largest base movement speed the resource accepts, so that every
/// velocity the running states compute fits in a fixed-point coordinate.
pub const MAX_SPEED: i32 = 1000000;

/// An animation player, modelled as the log of clip names whose playback
/// has been requested, oldest first.
#[derive(Debug)]
pub struct AnimationPlayer {
    played: Vec<String>,
}

impl View for AnimationPlayer {
    type V = Seq<Seq<char>>;

    closed spec fn view(&self) -> Seq<Seq<char>> {
        self.played.deep_view()
    }
}

impl AnimationPlayer {
    /// A player with an empty request log.
    pub fn new() -> (p: AnimationPlayer)
        ensures
            p@ == Seq::<Seq<char>>::empty(),
    {
        let p = AnimationPlayer { played: Vec::new() };
        proof {
            assert(p@ =~= Seq::<Seq<char>>::empty());
        }
        p
    }

    /// Requests playback of the named clip.
    pub fn play(&mut self, animation_name: &str)
        ensures
            final(self)@ == old(self)@.push(animation_name@),
    {
        self.played.push(animation_name.to_owned());
        proof {
            assert(self@ =~= old(self)@.push(animation_name@));
        }
    }

    /// The clip names requested so far, oldest first.
    pub fn played(&self) -> (r: &Vec<String>)
        ensures
            r.deep_view() == self@,
    {
        &self.played
    }
}

/// The mathematical model of a [`CharacterResource`]: the animation
/// player is abstracted to its request log, if one is bound.
pub ghost struct ResourceModel {
    pub animation_player: Option<Seq<Seq<char>>>,
    pub animation_direction: DirectionType,
    pub last_facing_direction: Vec2,
    pub speed: int,
}

impl ResourceModel {
    /// A well-formed resource keeps its base speed within machine range.
    pub open spec fn wf(self) -> bool {
        0 <= self.speed <= MAX_SPEED as int
    }

    /// The model after a playback request: with a player bound, the clip
    /// name is appended to its log; without one, nothing changes.
    pub open spec fn play(self, animation_name: Seq<char>) -> ResourceModel {
        match self.animation_player {
            Some(log) => ResourceModel {
                animation_player: Some(log.push(animation_name)),
                ..self
            },
            None => self,
        }
    }
}

/// Shared mutable data read and written by every state: base speed,
/// last facing direction, the current animation direction tag, and the
/// (optional) animation player.
#[derive(Debug)]
pub struct CharacterResource {
    animation_player: Option<AnimationPlayer>,
    animation_direction: DirectionType,
    last_facing_direction: Vec2,
    speed: i32,
}

impl View for CharacterResource {
    type V = ResourceModel;

    closed spec fn view(&self) -> ResourceModel {
        ResourceModel {
            animation_player: match self.animation_player {
                Some(p) => Some(p@),
                None => None,
            },
            animation_direction: self.animation_direction,
            last_facing_direction: self.last_facing_direction,
            speed: self.speed as int,
        }
    }
}

impl CharacterResource {
    /// A fresh resource: no animation player bound, facing category
    /// `Default`, zero last facing direction, base speed 50.
    pub fn new() -> (r: CharacterResource)
        ensures
            r@ == (ResourceModel {
                animation_player: None,
                animation_direction: DirectionType::Default,
                last_facing_direction: Vec2 { x: 0, y: 0 },
                speed: 50,
            }),
            r@.wf(),
    {
        CharacterResource {
            animation_player: None,
            animation_direction: DirectionType::Default,
            last_facing_direction: Vec2 { x: 0, y: 0 },
            speed: 50,
        }
    }

    /// Binds an animation player to the resource.
    pub fn set_animation_player(&mut self, animation_player: AnimationPlayer)
        ensures
            final(self)@ == (ResourceModel {
                animation_player: Some(animation_player@),
                ..old(self)@
            }),
    {
        self.animation_player = Some(animation_player);
    }

    /// The bound animation player, if any.
    pub fn get_animation_player(&self) -> (r: Option<&AnimationPlayer>)
        ensures
            match r {
                Some(p) => self@.animation_player == Some(p@),
                None => self@.animation_player is None,
            },
    {
        self.animation_player.as_ref()
    }

    /// Sets the animation direction tag.
    pub fn set_animation_direction(&mut self, direction: DirectionType)
        ensures
            final(self)@ == (ResourceModel { animation_direction: direction, ..old(self)@ }),
    {
        self.animation_direction = direction;
    }

    /// The current animation direction tag.
    pub fn get_animation_direction(&self) -> (d: DirectionType)
        ensures
            d == self@.animation_direction,
    {
        self.animation_direction
    }

    /// Sets the last facing direction.
    pub fn set_last_facing_direction(&mut self, direction: Vec2)
        ensures
            final(self)@ == (ResourceModel { last_facing_direction: direction, ..old(self)@ }),
    {
        self.last_facing_direction = direction;
    }

    /// The last facing direction.
    pub fn get_last_facing_direction(&self) -> (v: Vec2)
        ensures
            v == self@.last_facing_direction,
    {
        self.last_facing_direction
    }

    /// Sets the base movement speed.
    pub fn set_speed(&mut self, speed: i32)
        requires
            0 <= speed <= MAX_SPEED,
        ensures
            final(self)@ == (ResourceModel { speed: speed as int, ..old(self)@ }),
            final(self)@.wf(),
    {
        self.speed = speed;
    }

    /// The base movement speed.
    pub fn get_speed(&self) -> (s: i32)
        ensures
            s == self@.speed,
    {
        self.speed
    }

    /// Requests playback of the named clip on the bound animation player;
    /// without a player bound this performs nothing.
    pub fn play_animation(&mut self, animation_name: &str)
        ensures
            final(self)@ == old(self)@.play(animation_name@),
    {
        match &mut self.animation_player {
            Some(p) => {
                p.play(animation_name);
            },
            None => {},
        }
    }
}

} // verus!
