//! The event model: global event kinds shared by every mode, the closed
//! tagged union of typed events, and the extension payload that a raw
//! event may carry.
//!
//! A raw event carries at most one extension payload, tagged by mode and
//! event kind.  Resolution turns that payload into exactly one [`EventType`]
//! variant; anything unrecognized becomes [`EventType::Unknown`], which is
//! terminal for that event.

use vstd::prelude::*;

use crate::bed;
use crate::bp;
use crate::cai;
use crate::grav;
use crate::halloween;
use crate::timv;

verus! {

/// The audience a chat message was directed to, as recorded in the log.
#[derive(Clone, Copy, PartialEq, Eq, Structural, Debug)]
pub enum ChatType {
    Lobby,
    Team,
    Shout,
    Broadcast,
    Global,
}

/// A chat message event.
pub struct ChatEvent {
    pub chat_type: ChatType,
    /// The team the message was sent to, by roster position, when the
    /// recorder attached one.
    pub team: Option<u32>,
    pub sender: String,
    pub message: String,
}

/// A player joining the session.
pub struct JoinEvent {
    pub player: String,
}

/// A player leaving the session.
pub struct LeaveEvent {
    pub player: String,
}

/// A generic damage cause, shared by the modes whose death events defer to
/// the recording server's own damage bookkeeping.
#[derive(Clone, Copy, PartialEq, Eq, Structural, Debug)]
pub enum BukkitDamageCause {
    EntityAttack,
    Projectile,
    Void,
    Suffocation,
    Fire,
    FireTick,
    Fall,
    Drowning,
    Other,
}

/// The display label for a generic damage cause.
pub open spec fn spec_bukkit_damage_desc(c: BukkitDamageCause) -> Seq<char> {
    match c {
        BukkitDamageCause::EntityAttack => "Melee"@,
        BukkitDamageCause::Projectile => "Projectile"@,
        BukkitDamageCause::Void => "Void"@,
        BukkitDamageCause::Suffocation => "Suffocation"@,
        BukkitDamageCause::Fire => "Fire"@,
        BukkitDamageCause::FireTick => "Fire"@,
        BukkitDamageCause::Fall => "Fall"@,
        BukkitDamageCause::Drowning => "Drowning"@,
        BukkitDamageCause::Other => "Unknown cause"@,
    }
}

impl BukkitDamageCause {
    /// The display label of this damage cause.
    pub fn get_damage_desc(&self) -> (r: &'static str)
        ensures
            r@ == spec_bukkit_damage_desc(*self),
    {
        match self {
            BukkitDamageCause::EntityAttack => "Melee",
            BukkitDamageCause::Projectile => "Projectile",
            BukkitDamageCause::Void => "Void",
            BukkitDamageCause::Suffocation => "Suffocation",
            BukkitDamageCause::Fire => "Fire",
            BukkitDamageCause::FireTick => "Fire",
            BukkitDamageCause::Fall => "Fall",
            BukkitDamageCause::Drowning => "Drowning",
            BukkitDamageCause::Other => "Unknown cause",
        }
    }
}

/// One extension payload, tagged by mode and event kind.  Exactly one tag
/// is present per payload; a raw event carries zero or one payload.
pub enum ExtensionPayload {
    Chat(ChatEvent),
    Join(JoinEvent),
    Leave(LeaveEvent),
    CaiDeath(cai::DeathEvent),
    CaiCapture(cai::CaptureEvent),
    CaiCatch(cai::CatchEvent),
    CaiEscape(cai::EscapeEvent),
    TimvDeath(timv::DeathEvent),
    TimvTest(timv::TestEvent),
    TimvBody(timv::BodyEvent),
    TimvTrap(timv::TrapEvent),
    TimvDetectiveBody(timv::DetectiveBodyEvent),
    TimvPsychicReport(timv::SubrolePsychicReportEvent),
    TimvSharedPurchase(timv::SharedPointsPurchaseEvent),
    BpDeath(bp::DeathEvent),
    BpRound(bp::RoundEvent),
    BpWinners(bp::WinnersEvent),
    BpPowerup(bp::PowerUpEvent),
    GravStageCompletion(grav::StageCompletionEvent),
    GravGameFinish(grav::GameFinishEvent),
    GravHardcoreFail(grav::HardcoreModeFailEvent),
    HerdDeath(bed::DeathEvent),
    HerdElimination(bed::EliminationEvent),
    BedBedDestruction(bed::BedDestructionEvent),
    HalloweenDeath(halloween::DeathEvent),
}

/// The closed union of typed events: the three global kinds, every
/// mode-specific kind across the supported modes, and `Unknown` for a
/// payload that nothing recognized (or no payload at all).
pub enum EventType {
    Unknown,
    Chat(ChatEvent),
    Join(JoinEvent),
    Leave(LeaveEvent),
    CaiDeath(cai::DeathEvent),
    CaiCapture(cai::CaptureEvent),
    CaiCatch(cai::CatchEvent),
    CaiEscape(cai::EscapeEvent),
    TimvDeath(timv::DeathEvent),
    TimvTest(timv::TestEvent),
    TimvBody(timv::BodyEvent),
    TimvTrap(timv::TrapEvent),
    TimvDetectiveBody(timv::DetectiveBodyEvent),
    TimvPsychicReport(timv::SubrolePsychicReportEvent),
    TimvSharedPurchase(timv::SharedPointsPurchaseEvent),
    BpDeath(bp::DeathEvent),
    BpRound(bp::RoundEvent),
    BpWinners(bp::WinnersEvent),
    BpPowerup(bp::PowerUpEvent),
    GravStageCompletion(grav::StageCompletionEvent),
    GravGameFinish(grav::GameFinishEvent),
    GravHardcoreFail(grav::HardcoreModeFailEvent),
    HerdDeath(bed::DeathEvent),
    HerdElimination(bed::EliminationEvent),
    BedBedDestruction(bed::BedDestructionEvent),
    HalloweenDeath(halloween::DeathEvent),
}

} // verus!
