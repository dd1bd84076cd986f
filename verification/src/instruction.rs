//! Instructions that the metasrv sends to datanodes, and their replies.

use vstd::prelude::*;
use std::collections::HashMap;
use std::time::Duration;
use crate::text::{
    decimal, bool_text, option_str_debug, option_u64_debug, option_duration_debug, push_decimal,
    push_bool, push_option_str_debug, push_option_u64_debug, push_option_duration_debug,
};

verus! {

/// The identifier of a datanode.
pub type DatanodeId = u64;

/// The identifier of a flownode.
pub type FlownodeId = u64;

/// The identifier of a table.
pub type TableId = u32;

/// The number of a region within its table.
pub type RegionNumber = u32;

/// The identifier of a flow.
pub type FlowId = u32;

/// The identifier of a partition of a flow.
pub type FlowPartitionId = u32;

/// The identifier of a region: its table id in the high 32 bits and its region
/// number in the low 32 bits.
#[derive(Debug, Clone, Copy, PartialEq, Eq, Structural)]
pub struct RegionId(u64);

/// The identifier of region `region_number` of table `table_id`.
pub open spec fn region_id_value(table_id: TableId, region_number: RegionNumber) -> int {
    table_id as int * 0x1_0000_0000 + region_number as int
}

impl RegionId {
    pub closed spec fn spec_as_u64(&self) -> u64 {
        self.0
    }

    /// The identifier of region `region_number` of table `table_id`.
    pub fn new(table_id: TableId, region_number: RegionNumber) -> (r: RegionId)
        ensures
            r.spec_as_u64() == region_id_value(table_id, region_number),
    {
        let v: u64 = ((table_id as u64) << 32u64) | (region_number as u64);
        assert(v == table_id as int * 0x1_0000_0000 + region_number as int) by (bit_vector)
            requires
                v == ((table_id as u64) << 32u64) | (region_number as u64),
        ;
        RegionId(v)
    }

    /// The region id whose number is `v`.
    pub fn from_u64(v: u64) -> (r: RegionId)
        ensures
            r.spec_as_u64() == v,
    {
        RegionId(v)
    }

    /// The identifier as one number.
    pub fn as_u64(&self) -> (v: u64)
        ensures
            v == self.spec_as_u64(),
    {
        self.0
    }

    /// The table id: the high 32 bits.
    pub fn table_id(&self) -> (t: TableId)
        ensures
            t == self.spec_as_u64() / 0x1_0000_0000u64,
    {
        let v = self.0;
        let t = (v >> 32u64) as u32;
        assert(t == v / 0x1_0000_0000u64) by (bit_vector)
            requires
                t == (v >> 32u64) as u32,
        ;
        t
    }

    /// The region number: the low 32 bits.
    pub fn region_number(&self) -> (n: RegionNumber)
        ensures
            n == self.spec_as_u64() % 0x1_0000_0000u64,
    {
        let v = self.0;
        let n = (v & 0xFFFF_FFFFu64) as u32;
        assert(n == v % 0x1_0000_0000u64) by (bit_vector)
            requires
                n == (v & 0xFFFF_FFFFu64) as u32,
        ;
        n
    }
}

/// A region id gives back the table id and region number it was made of.
pub proof fn law_region_id_round_trip(table_id: TableId, region_number: RegionNumber)
    ensures
        region_id_value(table_id, region_number) / 0x1_0000_0000 == table_id as int,
        region_id_value(table_id, region_number) % 0x1_0000_0000 == region_number as int,
        0 <= region_id_value(table_id, region_number) <= u64::MAX,
{
    let v = region_id_value(table_id, region_number);
    assert(v / 0x1_0000_0000 == table_id as int && v % 0x1_0000_0000 == region_number as int)
        by (nonlinear_arith)
        requires
            v == table_id as int * 0x1_0000_0000 + region_number as int,
            0 <= region_number < 0x1_0000_0000,
            0 <= table_id < 0x1_0000_0000,
    ;
}

/// Distinct regions have distinct ids.
pub proof fn law_region_id_injective(t1: TableId, r1: RegionNumber, t2: TableId, r2: RegionNumber)
    requires
        region_id_value(t1, r1) == region_id_value(t2, r2),
    ensures
        t1 == t2,
        r1 == r2,
{
    law_region_id_round_trip(t1, r1);
    law_region_id_round_trip(t2, r2);
}

/// How a region id prints: the number, then the table id and region number.
pub open spec fn region_id_text(id: RegionId) -> Seq<char> {
    decimal(id.spec_as_u64() as nat) + "("@ + decimal((id.spec_as_u64() / 0x1_0000_0000u64) as nat)
        + ", "@ + decimal((id.spec_as_u64() % 0x1_0000_0000u64) as nat) + ")"@
}

impl RegionId {
    /// The text `{}` prints for the region id.
    pub fn to_string(&self) -> (s: String)
        ensures
            s@ == region_id_text(*self),
    {
        let mut out = String::new();
        push_decimal(&mut out, self.as_u64());
        out.append("(");
        push_decimal(&mut out, self.table_id() as u64);
        out.append(", ");
        push_decimal(&mut out, self.region_number() as u64);
        out.append(")");
        assert(out@ =~= region_id_text(*self));
        out
    }
}

/// A node of the cluster: its id and address.
#[derive(Debug, Clone, PartialEq, Eq, Hash)]
pub struct Peer {
    pub id: u64,
    pub addr: String,
}

/// Identifies a region on a datanode, and the engine that serves it.
#[derive(Debug, Clone, PartialEq, Eq, Hash)]
pub struct RegionIdent {
    pub datanode_id: DatanodeId,
    pub table_id: TableId,
    pub region_number: RegionNumber,
    pub engine: String,
}

/// How a region ident prints.
pub open spec fn region_ident_text(r: RegionIdent) -> Seq<char> {
    "RegionIdent(datanode_id='"@ + decimal(r.datanode_id as nat) + "', table_id="@ + decimal(
        r.table_id as nat,
    ) + ", region_number="@ + decimal(r.region_number as nat) + ", engine = "@ + r.engine@
        + ")"@
}

impl RegionIdent {
    /// The id of the region.
    pub fn get_region_id(&self) -> (r: RegionId)
        ensures
            r.spec_as_u64() == region_id_value(self.table_id, self.region_number),
    {
        RegionId::new(self.table_id, self.region_number)
    }

    /// The text `{}` prints for the region ident.
    pub fn to_string(&self) -> (s: String)
        ensures
            s@ == region_ident_text(*self),
    {
        let mut out = String::new();
        out.append("RegionIdent(datanode_id='");
        push_decimal(&mut out, self.datanode_id);
        out.append("', table_id=");
        push_decimal(&mut out, self.table_id as u64);
        out.append(", region_number=");
        push_decimal(&mut out, self.region_number as u64);
        out.append(", engine = ");
        out.append(self.engine.as_str());
        out.append(")");
        assert(out@ =~= region_ident_text(*self));
        out
    }
}

/// The model of an optional text.
pub open spec fn opt_text(o: Option<String>) -> Option<Seq<char>> {
    match o {
        Some(s) => Some(s@),
        None => None,
    }
}

/// The result of downgrading a leader region.
#[derive(Debug, Clone, PartialEq, Eq)]
pub struct DowngradeRegionReply {
    /// The `last_entry_id`, if available.
    pub last_entry_id: Option<u64>,
    /// The `metadata_last_entry_id`, if available (only for the metric engine).
    pub metadata_last_entry_id: Option<u64>,
    /// Whether the region exists.
    pub exists: bool,
    /// The error of the operation, if any.
    pub error: Option<String>,
}

/// How a downgrade reply prints.
pub open spec fn downgrade_region_reply_text(r: DowngradeRegionReply) -> Seq<char> {
    "(last_entry_id="@ + option_u64_debug(r.last_entry_id) + ", exists="@ + bool_text(r.exists)
        + ", error="@ + option_str_debug(opt_text(r.error)) + ")"@
}

impl DowngradeRegionReply {
    /// The text `{}` prints for the reply.
    pub fn to_string(&self) -> (s: String)
        ensures
            s@ == downgrade_region_reply_text(*self),
    {
        let mut out = String::new();
        out.append("(last_entry_id=");
        push_option_u64_debug(&mut out, self.last_entry_id);
        out.append(", exists=");
        push_bool(&mut out, self.exists);
        out.append(", error=");
        push_option_str_debug(&mut out, &self.error);
        out.append(")");
        assert(out@ =~= downgrade_region_reply_text(*self));
        out
    }
}

/// A reply that tells whether an operation succeeded.
#[derive(Debug, Clone, PartialEq, Eq)]
pub struct SimpleReply {
    pub result: bool,
    pub error: Option<String>,
}

/// How a simple reply prints.
pub open spec fn simple_reply_text(r: SimpleReply) -> Seq<char> {
    "(result="@ + bool_text(r.result) + ", error="@ + option_str_debug(opt_text(r.error)) + ")"@
}

impl SimpleReply {
    /// The text `{}` prints for the reply.
    pub fn to_string(&self) -> (s: String)
        ensures
            s@ == simple_reply_text(*self),
    {
        let mut out = String::new();
        out.append("(result=");
        push_bool(&mut out, self.result);
        out.append(", error=");
        push_option_str_debug(&mut out, &self.error);
        out.append(")");
        assert(out@ =~= simple_reply_text(*self));
        out
    }
}

/// Opens a region.
#[derive(Debug, Clone, PartialEq)]
pub struct OpenRegion {
    pub region_ident: RegionIdent,
    pub region_storage_path: String,
    pub region_options: HashMap<String, String>,
    pub region_wal_options: HashMap<RegionNumber, String>,
    pub skip_wal_replay: bool,
}

/// How an open-region instruction prints.
pub open spec fn open_region_text(r: OpenRegion) -> Seq<char> {
    "OpenRegion(region_ident="@ + region_ident_text(r.region_ident) + ", region_storage_path="@
        + r.region_storage_path@ + ")"@
}

impl OpenRegion {
    /// An instruction to open the region `region_ident` stored at `path`.
    pub fn new(
        region_ident: RegionIdent,
        path: &str,
        region_options: HashMap<String, String>,
        region_wal_options: HashMap<RegionNumber, String>,
        skip_wal_replay: bool,
    ) -> (r: OpenRegion)
        ensures
            r.region_ident == region_ident,
            r.region_storage_path@ == path@,
            r.region_options == region_options,
            r.region_wal_options == region_wal_options,
            r.skip_wal_replay == skip_wal_replay,
    {
        OpenRegion {
            region_ident,
            region_storage_path: String::from_str(path),
            region_options,
            region_wal_options,
            skip_wal_replay,
        }
    }

    /// The text `{}` prints for the instruction.
    pub fn to_string(&self) -> (s: String)
        ensures
            s@ == open_region_text(*self),
    {
        let mut out = String::new();
        out.append("OpenRegion(region_ident=");
        let ident = self.region_ident.to_string();
        out.append(ident.as_str());
        out.append(", region_storage_path=");
        out.append(self.region_storage_path.as_str());
        out.append(")");
        assert(out@ =~= open_region_text(*self));
        out
    }
}

/// Downgrades a leader region.
#[derive(Debug, Clone, PartialEq, Eq)]
pub struct DowngradeRegion {
    /// The region to downgrade.
    pub region_id: RegionId,
    /// How long to wait for the region to flush; `None` stands for no flush
    /// before downgrading.
    pub flush_timeout: Option<Duration>,
}

/// How a downgrade instruction prints.
pub open spec fn downgrade_region_text(r: DowngradeRegion) -> Seq<char> {
    "DowngradeRegion(region_id="@ + region_id_text(r.region_id) + ", flush_timeout="@
        + option_duration_debug(r.flush_timeout) + ")"@
}

impl DowngradeRegion {
    /// The text `{}` prints for the instruction.
    pub fn to_string(&self) -> (s: String)
        ensures
            s@ == downgrade_region_text(*self),
    {
        let mut out = String::new();
        out.append("DowngradeRegion(region_id=");
        let id = self.region_id.to_string();
        out.append(id.as_str());
        out.append(", flush_timeout=");
        push_option_duration_debug(&mut out, &self.flush_timeout);
        out.append(")");
        assert(out@ =~= downgrade_region_text(*self));
        out
    }
}

/// Upgrades a follower region to leader region.
#[derive(Debug, Clone, PartialEq, Eq)]
pub struct UpgradeRegion {
    /// The region to upgrade.
    pub region_id: RegionId,
    /// The `last_entry_id` of the old leader region.
    pub last_entry_id: Option<u64>,
    /// The `last_entry_id` of the old leader metadata region (only for the metric engine).
    pub metadata_last_entry_id: Option<u64>,
    /// How long to wait for the WAL replay; `None` stands for no wait.
    pub replay_timeout: Option<Duration>,
    /// The hint for replaying the memtable.
    pub location_id: Option<u64>,
}

/// Creates a flow.
#[derive(Debug, Clone, PartialEq, Eq)]
pub struct CreateFlow {
    /// The unique identifier of the flow.
    pub flow_id: FlowId,
    pub source_table_ids: Vec<TableId>,
    /// The peer that serves each flow partition.
    pub partition_to_peer_mapping: Vec<(FlowPartitionId, Peer)>,
}

/// Drops a flow.
#[derive(Debug, Clone, PartialEq, Eq)]
pub struct DropFlow {
    pub flow_id: FlowId,
    pub source_table_ids: Vec<TableId>,
    /// The flownode that serves each flow partition.
    pub flow_part2node_id: Vec<(FlowPartitionId, FlownodeId)>,
}

/// The full name of a table.
#[derive(Debug, Clone, PartialEq, Eq, Hash)]
pub struct TableName {
    pub catalog_name: String,
    pub schema_name: String,
    pub table_name: String,
}

/// The full name of a flow.
#[derive(Debug, Clone, PartialEq, Eq, Hash)]
pub struct FlowName {
    pub catalog_name: String,
    pub flow_name: String,
}

/// The full name of a schema.
#[derive(Debug, Clone, PartialEq, Eq, Hash)]
pub struct SchemaName {
    pub catalog_name: String,
    pub schema_name: String,
}

/// The identifier of a cache entry.
#[derive(Debug, Clone, PartialEq, Eq)]
pub enum CacheIdent {
    FlowId(FlowId),
    /// A change of address of a flownode.
    FlowNodeAddressChange(u64),
    FlowName(FlowName),
    TableId(TableId),
    TableName(TableName),
    SchemaName(SchemaName),
    CreateFlow(CreateFlow),
    DropFlow(DropFlow),
}

/// Flushes a batch of regions.
#[derive(Debug, Clone, PartialEq, Eq)]
pub struct FlushRegions {
    pub region_ids: Vec<RegionId>,
}

/// An instruction to a datanode.
#[derive(Debug, Clone, PartialEq)]
pub enum Instruction {
    /// Opens a region; the reply is true if the region exists.
    OpenRegion(OpenRegion),
    /// Closes a region; the reply is true if the region does not exist.
    CloseRegion(RegionIdent),
    /// Upgrades a region.
    UpgradeRegion(UpgradeRegion),
    /// Downgrades a region.
    DowngradeRegion(DowngradeRegion),
    /// Invalidates a batch of caches.
    InvalidateCaches(Vec<CacheIdent>),
    /// Flushes regions.
    FlushRegions(FlushRegions),
    /// Flushes a single region.
    FlushRegion(RegionId),
}

/// How an instruction prints: the name of its kind.
pub open spec fn instruction_text(i: Instruction) -> Seq<char> {
    match i {
        Instruction::OpenRegion(_) => "OpenRegion"@,
        Instruction::CloseRegion(_) => "CloseRegion"@,
        Instruction::UpgradeRegion(_) => "UpgradeRegion"@,
        Instruction::DowngradeRegion(_) => "DowngradeRegion"@,
        Instruction::InvalidateCaches(_) => "InvalidateCaches"@,
        Instruction::FlushRegions(_) => "FlushRegions"@,
        Instruction::FlushRegion(_) => "FlushRegion"@,
    }
}

impl Instruction {
    /// The text `{}` prints for the instruction.
    pub fn to_string(&self) -> (s: String)
        ensures
            s@ == instruction_text(*self),
    {
        let name = match self {
            Instruction::OpenRegion(_) => "OpenRegion",
            Instruction::CloseRegion(_) => "CloseRegion",
            Instruction::UpgradeRegion(_) => "UpgradeRegion",
            Instruction::DowngradeRegion(_) => "DowngradeRegion",
            Instruction::InvalidateCaches(_) => "InvalidateCaches",
            Instruction::FlushRegions(_) => "FlushRegions",
            Instruction::FlushRegion(_) => "FlushRegion",
        };
        String::from_str(name)
    }
}

/// The reply to an upgrade-region instruction.
#[derive(Debug, Clone, PartialEq, Eq)]
pub struct UpgradeRegionReply {
    /// Whether the `last_entry_id` has been replayed to the latest.
    pub ready: bool,
    /// Whether the region exists.
    pub exists: bool,
    /// The error, if any.
    pub error: Option<String>,
}

/// How an upgrade reply prints.
pub open spec fn upgrade_region_reply_text(r: UpgradeRegionReply) -> Seq<char> {
    "(ready="@ + bool_text(r.ready) + ", exists="@ + bool_text(r.exists) + ", error="@
        + option_str_debug(opt_text(r.error)) + ")"@
}

impl UpgradeRegionReply {
    /// The text `{}` prints for the reply.
    pub fn to_string(&self) -> (s: String)
        ensures
            s@ == upgrade_region_reply_text(*self),
    {
        let mut out = String::new();
        out.append("(ready=");
        push_bool(&mut out, self.ready);
        out.append(", exists=");
        push_bool(&mut out, self.exists);
        out.append(", error=");
        push_option_str_debug(&mut out, &self.error);
        out.append(")");
        assert(out@ =~= upgrade_region_reply_text(*self));
        out
    }
}

/// The reply to an instruction.
#[derive(Debug, Clone, PartialEq, Eq)]
pub enum InstructionReply {
    OpenRegion(SimpleReply),
    CloseRegion(SimpleReply),
    UpgradeRegion(UpgradeRegionReply),
    DowngradeRegion(DowngradeRegionReply),
    FlushRegion(SimpleReply),
}

/// How an instruction reply prints: its kind, and the reply within.
pub open spec fn instruction_reply_text(r: InstructionReply) -> Seq<char> {
    match r {
        InstructionReply::OpenRegion(reply) => "InstructionReply::OpenRegion("@ + simple_reply_text(
            reply,
        ) + ")"@,
        InstructionReply::CloseRegion(reply) => "InstructionReply::CloseRegion("@
            + simple_reply_text(reply) + ")"@,
        InstructionReply::UpgradeRegion(reply) => "InstructionReply::UpgradeRegion("@
            + upgrade_region_reply_text(reply) + ")"@,
        InstructionReply::DowngradeRegion(reply) => "InstructionReply::DowngradeRegion("@
            + downgrade_region_reply_text(reply) + ")"@,
        InstructionReply::FlushRegion(reply) => "InstructionReply::FlushRegion("@
            + simple_reply_text(reply) + ")"@,
    }
}

impl InstructionReply {
    /// The text `{}` prints for the reply.
    pub fn to_string(&self) -> (s: String)
        ensures
            s@ == instruction_reply_text(*self),
    {
        let mut out = String::new();
        match self {
            InstructionReply::OpenRegion(reply) => {
                out.append("InstructionReply::OpenRegion(");
                let t = reply.to_string();
                out.append(t.as_str());
            },
            InstructionReply::CloseRegion(reply) => {
                out.append("InstructionReply::CloseRegion(");
                let t = reply.to_string();
                out.append(t.as_str());
            },
            InstructionReply::UpgradeRegion(reply) => {
                out.append("InstructionReply::UpgradeRegion(");
                let t = reply.to_string();
                out.append(t.as_str());
            },
            InstructionReply::DowngradeRegion(reply) => {
                out.append("InstructionReply::DowngradeRegion(");
                let t = reply.to_string();
                out.append(t.as_str());
            },
            InstructionReply::FlushRegion(reply) => {
                out.append("InstructionReply::FlushRegion(");
                let t = reply.to_string();
                out.append(t.as_str());
            },
        }
        out.append(")");
        assert(out@ =~= instruction_reply_text(*self));
        out
    }
}

/// A downgrade reply prints its own last entry id, never the metadata one: two
/// replies that differ only in the metadata last entry id print the same text.
pub proof fn law_downgrade_reply_text_ignores_metadata(r1: DowngradeRegionReply, r2: DowngradeRegionReply)
    requires
        r1.last_entry_id == r2.last_entry_id,
        r1.exists == r2.exists,
        r1.error == r2.error,
    ensures
        downgrade_region_reply_text(r1) == downgrade_region_reply_text(r2),
{
}

} // verus!
