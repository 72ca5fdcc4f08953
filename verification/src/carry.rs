//! Carry detection: which platform, if any, the player stands on.
//!
//! The player is carried by the first platform, in the order in which the
//! platforms are held, whose box overlaps the player's box. Platforms after
//! it are not looked at, even if they overlap too.

use vstd::prelude::*;
use crate::config::Config;
use crate::geometry::{Aabb, Vec2};
use crate::player::Player;
use crate::world::BodyState;

verus! {

/// The fixed half extents of the two kinds of box.
#[derive(Clone, Copy, Debug, PartialEq, Eq, Structural)]
pub struct CarryDetector {
    pub player_half_extent: Vec2,
    pub platform_half_extent: Vec2,
}

impl CarryDetector {
    pub open spec fn of(config: Config) -> CarryDetector {
        CarryDetector {
            player_half_extent: config.player_half_extent,
            platform_half_extent: config.platform_half_extent,
        }
    }

    /// The box of a player at `position`.
    pub open spec fn player_box(self, position: Vec2) -> Aabb {
        Aabb { center: position, half_extent: self.player_half_extent }
    }

    /// The box of a platform at `position`.
    pub open spec fn platform_box(self, position: Vec2) -> Aabb {
        Aabb { center: position, half_extent: self.platform_half_extent }
    }

    /// Whether a player at `player_position` overlaps a platform at
    /// `platform_position`.
    pub open spec fn stands_on(self, player_position: Vec2, platform_position: Vec2) -> bool {
        self.player_box(player_position).overlaps_spec(self.platform_box(platform_position))
    }

    /// Whether platform `i` is the first that the player overlaps: it
    /// overlaps, and no platform before it does.
    pub open spec fn is_first_overlap(
        self,
        player_position: Vec2,
        platforms: Seq<BodyState>,
        i: int,
    ) -> bool {
        &&& 0 <= i < platforms.len()
        &&& self.stands_on(player_position, platforms[i].position)
        &&& forall|j: int|
            0 <= j < i ==> !self.stands_on(player_position, #[trigger] platforms[j].position)
    }

    /// Whether the player overlaps no platform at all.
    pub open spec fn none_overlaps(self, player_position: Vec2, platforms: Seq<BodyState>) -> bool {
        forall|j: int|
            0 <= j < platforms.len() ==> !self.stands_on(
                player_position,
                #[trigger] platforms[j].position,
            )
    }

    /// The first index at or after `from` whose platform the player
    /// overlaps.
    pub open spec fn first_overlap_from(
        self,
        player_position: Vec2,
        platforms: Seq<BodyState>,
        from: int,
    ) -> Option<int>
        decreases platforms.len() - from,
    {
        if from < 0 || from >= platforms.len() {
            None
        } else if self.stands_on(player_position, platforms[from].position) {
            Some(from)
        } else {
            self.first_overlap_from(player_position, platforms, from + 1)
        }
    }

    /// The index of the carrying platform, if there is one.
    pub open spec fn first_overlap(self, player_position: Vec2, platforms: Seq<BodyState>)
        -> Option<int> {
        self.first_overlap_from(player_position, platforms, 0)
    }

    /// The velocity of the carrying platform, if there is one.
    pub open spec fn carrier_velocity(self, player_position: Vec2, platforms: Seq<BodyState>)
        -> Option<Vec2> {
        match self.first_overlap(player_position, platforms) {
            Some(i) => Some(platforms[i].velocity),
            None => None,
        }
    }

    /// The player after detection. What the player's carry state was before
    /// plays no part.
    pub open spec fn detected(
        self,
        player: Player,
        player_position: Vec2,
        platforms: Seq<BodyState>,
    ) -> Player {
        player.carried_by(self.carrier_velocity(player_position, platforms))
    }

    pub fn from_config(config: &Config) -> (d: CarryDetector)
        ensures
            d == CarryDetector::of(*config),
    {
        CarryDetector {
            player_half_extent: config.player_half_extent,
            platform_half_extent: config.platform_half_extent,
        }
    }

    /// The overlap test between the player and one platform.
    pub fn overlaps(&self, player_position: Vec2, platform_position: Vec2) -> (hit: bool)
        ensures
            hit == self.stands_on(player_position, platform_position),
    {
        let player_box = Aabb { center: player_position, half_extent: self.player_half_extent };
        let platform_box = Aabb {
            center: platform_position,
            half_extent: self.platform_half_extent,
        };
        player_box.overlaps(&platform_box)
    }

    /// Scans the platforms in order and stops at the first that overlaps.
    pub fn find_carrier(&self, player_position: Vec2, platforms: &Vec<BodyState>) -> (found:
        Option<usize>)
        ensures
            match found {
                Some(i) => self.is_first_overlap(player_position, platforms@, i as int),
                None => self.none_overlaps(player_position, platforms@),
            },
            match found {
                Some(i) => self.first_overlap(player_position, platforms@) == Some(i as int),
                None => self.first_overlap(player_position, platforms@) is None,
            },
    {
        let mut i: usize = 0;
        while i < platforms.len()
            invariant
                i <= platforms.len(),
                self.first_overlap(player_position, platforms@) == self.first_overlap_from(
                    player_position,
                    platforms@,
                    i as int,
                ),
            decreases platforms.len() - i,
        {
            if self.overlaps(player_position, platforms[i].position) {
                proof {
                    lemma_first_overlap_least(*self, player_position, platforms@);
                }
                return Some(i);
            }
            i += 1;
        }
        proof {
            lemma_first_overlap_least(*self, player_position, platforms@);
        }
        None
    }

    /// Recomputes the player's carry state from the positions read this
    /// frame: carried at the velocity of the first overlapping platform, or
    /// not carried and with zero carry velocity.
    pub fn detect(&self, player: &mut Player, player_position: Vec2, platforms: &Vec<BodyState>)
        ensures
            *final(player) == self.detected(*old(player), player_position, platforms@),
            final(player).wf(),
            final(player).body == old(player).body,
            final(player).collider == old(player).collider,
            final(player).is_carried <==> !self.none_overlaps(player_position, platforms@),
            !final(player).is_carried ==> final(player).carry_velocity == Vec2::origin(),
            forall|i: int|
                self.is_first_overlap(player_position, platforms@, i) ==> final(player).carry_velocity
                    == (#[trigger] platforms@[i]).velocity,
    {
        proof {
            lemma_first_overlap_least(*self, player_position, platforms@);
        }
        match self.find_carrier(player_position, platforms) {
            Some(i) => {
                player.is_carried = true;
                player.carry_velocity = platforms[i].velocity;
            },
            None => {
                player.is_carried = false;
                player.carry_velocity = Vec2 { x: 0, y: 0 };
            },
        }
    }
}

/// What the scan from `from` finds: the least overlapping index at or after
/// `from`, or nothing when no platform from there on overlaps.
pub proof fn lemma_first_overlap_from_least(
    d: CarryDetector,
    player_position: Vec2,
    platforms: Seq<BodyState>,
    from: int,
)
    requires
        0 <= from <= platforms.len(),
    ensures
        match d.first_overlap_from(player_position, platforms, from) {
            Some(i) => {
                &&& from <= i < platforms.len()
                &&& d.stands_on(player_position, platforms[i].position)
                &&& forall|j: int|
                    from <= j < i ==> !d.stands_on(player_position, #[trigger] platforms[j].position)
            },
            None => forall|j: int|
                from <= j < platforms.len() ==> !d.stands_on(
                    player_position,
                    #[trigger] platforms[j].position,
                ),
        },
    decreases platforms.len() - from,
{
    if from < platforms.len() && !d.stands_on(player_position, platforms[from].position) {
        lemma_first_overlap_from_least(d, player_position, platforms, from + 1);
    }
}

/// The carrying platform is the first that overlaps: it overlaps, and no
/// platform before it does. There is none exactly when no platform overlaps.
pub proof fn lemma_first_overlap_least(
    d: CarryDetector,
    player_position: Vec2,
    platforms: Seq<BodyState>,
)
    ensures
        match d.first_overlap(player_position, platforms) {
            Some(i) => d.is_first_overlap(player_position, platforms, i),
            None => d.none_overlaps(player_position, platforms),
        },
        forall|i: int|
            d.is_first_overlap(player_position, platforms, i) ==> d.first_overlap(
                player_position,
                platforms,
            ) == Some(i),
{
    lemma_first_overlap_from_least(d, player_position, platforms, 0);
    assert forall|i: int| d.is_first_overlap(player_position, platforms, i) implies d.first_overlap(
        player_position,
        platforms,
    ) == Some(i) by {
        match d.first_overlap(player_position, platforms) {
            Some(k) => {
                if k < i {
                    assert(!d.stands_on(player_position, platforms[k].position));
                } else if i < k {
                    assert(!d.stands_on(player_position, platforms[i].position));
                }
            },
            None => {
                assert(!d.stands_on(player_position, platforms[i].position));
            },
        }
    }
}

/// If the player overlaps no platform, it is not carried after detection and
/// its carry velocity is zero.
pub proof fn lemma_no_overlap_clears_carry(
    d: CarryDetector,
    player: Player,
    player_position: Vec2,
    platforms: Seq<BodyState>,
)
    requires
        d.none_overlaps(player_position, platforms),
    ensures
        !d.detected(player, player_position, platforms).is_carried,
        d.detected(player, player_position, platforms).carry_velocity == Vec2::origin(),
{
    lemma_first_overlap_least(d, player_position, platforms);
}

/// If platform `i` overlaps and no platform before it does, the player is
/// carried at the velocity of platform `i`, whatever the platforms after it
/// do.
pub proof fn lemma_first_overlap_wins(
    d: CarryDetector,
    player: Player,
    player_position: Vec2,
    platforms: Seq<BodyState>,
    i: int,
)
    requires
        d.is_first_overlap(player_position, platforms, i),
    ensures
        d.first_overlap(player_position, platforms) == Some(i),
        d.detected(player, player_position, platforms).is_carried,
        d.detected(player, player_position, platforms).carry_velocity == platforms[i].velocity,
{
    lemma_first_overlap_least(d, player_position, platforms);
}

/// Of two platforms that both overlap, the later one never carries.
pub proof fn lemma_later_overlap_ignored(
    d: CarryDetector,
    player_position: Vec2,
    platforms: Seq<BodyState>,
    i: int,
    j: int,
)
    requires
        0 <= i < j < platforms.len(),
        d.stands_on(player_position, platforms[i].position),
        d.stands_on(player_position, platforms[j].position),
    ensures
        d.first_overlap(player_position, platforms) is Some,
        d.first_overlap(player_position, platforms)->0 <= i,
        d.first_overlap(player_position, platforms) != Some(j),
{
    lemma_first_overlap_least(d, player_position, platforms);
}

/// Running the detector again on the same readings changes nothing, and the
/// outcome does not depend on the carry state that the player had before.
pub proof fn lemma_detect_idempotent(
    d: CarryDetector,
    player: Player,
    other: Player,
    player_position: Vec2,
    platforms: Seq<BodyState>,
)
    requires
        other.body == player.body,
        other.collider == player.collider,
    ensures
        d.detected(d.detected(player, player_position, platforms), player_position, platforms)
            == d.detected(player, player_position, platforms),
        d.detected(other, player_position, platforms) == d.detected(
            player,
            player_position,
            platforms,
        ),
        d.detected(player, player_position, platforms).wf(),
{
}

} // verus!
