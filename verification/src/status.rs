//! The status that a player publishes for other processes, and the answer
//! to a query for it.

use vstd::prelude::*;

verus! {

/// The transport at one tick.
#[derive(Clone, Debug, PartialEq, Eq)]
pub struct PlayerStatus {
    /// Whether the transport plays.
    pub playing: bool,
    /// The position in nanoseconds.
    pub position_nanos: u64,
    /// The bar, counted from one; zero where no player runs.
    pub bar: u64,
    /// The beat within the bar, counted from one; zero where no player
    /// runs.
    pub beat: u32,
    /// The tempo in thousandths of a beat per minute; zero where it is
    /// undefined.
    pub bpm_milli: u32,
    /// The time signature as the project writes it.
    pub time_sig: String,
    /// The level on the left, in units of 2^-31 of full scale.
    pub level_l: u32,
    /// The level on the right, in units of 2^-31 of full scale.
    pub level_r: u32,
    /// The path of the sound file.
    pub file: String,
}

impl PlayerStatus {
    /// Nothing plays: every number is zero and every text is empty.
    pub open spec fn is_idle(&self) -> bool {
        &&& !self.playing
        &&& self.position_nanos == 0
        &&& self.bar == 0
        &&& self.beat == 0
        &&& self.bpm_milli == 0
        &&& self.time_sig@ == Seq::<char>::empty()
        &&& self.level_l == 0
        &&& self.level_r == 0
        &&& self.file@ == Seq::<char>::empty()
    }

    /// The status that stands for the absence of a player.
    pub fn idle() -> (s: PlayerStatus)
        ensures
            s.is_idle(),
    {
        PlayerStatus {
            playing: false,
            position_nanos: 0,
            bar: 0,
            beat: 0,
            bpm_milli: 0,
            time_sig: String::new(),
            level_l: 0,
            level_r: 0,
            file: String::new(),
        }
    }
}

/// The answer to a query.
#[derive(Clone, Debug, PartialEq, Eq)]
pub enum QueryReply {
    /// A player has published a status: its text, as it was found.
    Published(String),
    /// No status is published: the idle status stands in.
    Idle(PlayerStatus),
}

/// Answers a query from what the status file holds, `None` standing for a
/// file that is absent. A published text is handed on untouched; without
/// one the answer is the idle status.
pub fn query(contents: Option<String>) -> (r: QueryReply)
    ensures
        match contents {
            Some(text) => r == QueryReply::Published(text),
            None => r matches QueryReply::Idle(s) && s.is_idle(),
        },
{
    match contents {
        Some(text) => QueryReply::Published(text),
        None => QueryReply::Idle(PlayerStatus::idle()),
    }
}

} // verus!
