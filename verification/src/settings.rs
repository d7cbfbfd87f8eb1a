//! Settings that take effect when the next session is opened.

use vstd::prelude::*;

verus! {

/// The stream quality, in three tiers.
#[derive(Clone, Copy, Debug, PartialEq, Eq, Structural)]
pub enum Bitrate {
    Low,
    Normal,
    High,
}

impl Bitrate {
    /// The number by which the host names the tier.
    pub open spec fn level_of(self) -> u8 {
        match self {
            Bitrate::Low => 0,
            Bitrate::Normal => 1,
            Bitrate::High => 2,
        }
    }

    /// The tier that the host names by `level`, if it names one.
    pub open spec fn of_level(level: u8) -> Option<Bitrate> {
        if level == 0 {
            Some(Bitrate::Low)
        } else if level == 1 {
            Some(Bitrate::Normal)
        } else if level == 2 {
            Some(Bitrate::High)
        } else {
            None
        }
    }

    /// The number by which the host names the tier.
    pub fn level(self) -> (level: u8)
        ensures
            level == self.level_of(),
            Bitrate::of_level(level) == Some(self),
    {
        match self {
            Bitrate::Low => 0,
            Bitrate::Normal => 1,
            Bitrate::High => 2,
        }
    }

    /// The tier that the host names by `level`: 0, 1 or 2.
    pub fn from_level(level: u8) -> (tier: Option<Bitrate>)
        ensures
            tier == Bitrate::of_level(level),
            tier is Some <==> level <= 2,
    {
        if level == 0 {
            Some(Bitrate::Low)
        } else if level == 1 {
            Some(Bitrate::Normal)
        } else if level == 2 {
            Some(Bitrate::High)
        } else {
            None
        }
    }
}

/// The settings of the player.
#[derive(Clone, Copy, Debug, PartialEq, Eq, Structural)]
pub struct Settings {
    pub bitrate: Bitrate,
    pub gapless: bool,
}

impl Settings {
    /// The settings of a player that nobody has touched: the middle tier, with
    /// gapless playback.
    pub open spec fn initial() -> Settings {
        Settings { bitrate: Bitrate::Normal, gapless: true }
    }

    /// The settings of a player that nobody has touched.
    pub fn new() -> (settings: Settings)
        ensures
            settings == Settings::initial(),
    {
        Settings { bitrate: Bitrate::Normal, gapless: true }
    }

    /// Sets the tier that `level` names. A number that names none changes
    /// nothing and is answered with `false`.
    pub fn set_bitrate(&mut self, level: u8) -> (accepted: bool)
        ensures
            accepted == (level <= 2),
            accepted ==> *final(self) == (Settings {
                bitrate: Bitrate::of_level(level).unwrap(),
                ..*old(self)
            }),
            !accepted ==> *final(self) == *old(self),
    {
        match Bitrate::from_level(level) {
            Some(tier) => {
                self.bitrate = tier;
                true
            },
            None => false,
        }
    }

    /// The number of the tier that is set.
    pub fn get_bitrate(&self) -> (level: u8)
        ensures
            level == self.bitrate.level_of(),
    {
        self.bitrate.level()
    }

    /// Switches gapless playback on or off.
    pub fn set_gapless(&mut self, gapless: bool)
        ensures
            *final(self) == (Settings { gapless, ..*old(self) }),
    {
        self.gapless = gapless;
    }

    /// Whether gapless playback is on.
    pub fn get_gapless(&self) -> (gapless: bool)
        ensures
            gapless == self.gapless,
    {
        self.gapless
    }
}

} // verus!
