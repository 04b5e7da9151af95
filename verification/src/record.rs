//! The status record a server publishes about itself.

use vstd::prelude::*;

verus! {

/// Number of bytes in a build identifier.
pub const BUILD_ID_LEN: usize = 8;

/// How player-versus-player combat is configured on a server.
#[derive(Clone, Copy, Debug, PartialEq, Eq, Structural, Hash)]
pub enum BattleMode {
    /// Every player may fight every other player.
    GlobalPvP,
    /// No player may fight another player.
    GlobalPvE,
    /// Each player chooses; `pvp_by_default` is the setting of a player who has not chosen.
    PerPlayer { pvp_by_default: bool },
}

/// One snapshot of a server's identity, load and mode.
#[derive(Clone, Copy, Debug, PartialEq, Eq, Hash)]
pub struct StatusRecord {
    /// Opaque identifier of the running build; all zero means "unknown".
    pub build_id: [u8; 8],
    /// Players connected right now.
    pub players_count: u16,
    /// Advertised player limit. A server may report more players than this.
    pub player_cap: u16,
    /// Combat configuration.
    pub battle_mode: BattleMode,
}

/// Mathematical model of a [`StatusRecord`].
pub struct StatusRecordView {
    pub build_id: Seq<u8>,
    pub players_count: nat,
    pub player_cap: nat,
    pub battle_mode: BattleMode,
}

impl StatusRecordView {
    /// The values a `StatusRecord` can hold: eight identifier bytes and two 16-bit counts.
    pub open spec fn wf(self) -> bool {
        &&& self.build_id.len() == BUILD_ID_LEN
        &&& self.players_count <= u16::MAX
        &&& self.player_cap <= u16::MAX
    }
}

impl View for StatusRecord {
    type V = StatusRecordView;

    open spec fn view(&self) -> StatusRecordView {
        StatusRecordView {
            build_id: self.build_id@,
            players_count: self.players_count as nat,
            player_cap: self.player_cap as nat,
            battle_mode: self.battle_mode,
        }
    }
}

impl StatusRecord {
    /// Builds a record from its four fields.
    pub fn new(build_id: [u8; 8], players_count: u16, player_cap: u16, battle_mode: BattleMode) -> (record: StatusRecord)
        ensures
            record.build_id == build_id,
            record.players_count == players_count,
            record.player_cap == player_cap,
            record.battle_mode == battle_mode,
            record@.wf(),
    {
        StatusRecord { build_id, players_count, player_cap, battle_mode }
    }
}

/// Two records with the same model are the same record.
pub proof fn view_is_injective(a: StatusRecord, b: StatusRecord)
    requires
        a@ == b@,
    ensures
        a == b,
{
    assert(a.build_id =~= b.build_id);
}

} // verus!
