use std::collections::HashMap;
use std::time::Duration;

use greptime_common::instruction::{
    DowngradeRegion, DowngradeRegionReply, FlushRegions, Instruction, InstructionReply, OpenRegion,
    RegionId, RegionIdent, SimpleReply, UpgradeRegion, UpgradeRegionReply,
};

fn ident() -> RegionIdent {
    RegionIdent { datanode_id: 2, table_id: 1024, region_number: 1, engine: "mito2".to_string() }
}

#[test]
fn region_id_packs_table_and_region() {
    let id = RegionId::new(1024, 1);
    assert_eq!(id.as_u64(), (1024u64 << 32) | 1);
    assert_eq!(id.table_id(), 1024);
    assert_eq!(id.region_number(), 1);
    let id = RegionId::new(u32::MAX, u32::MAX);
    assert_eq!(id.as_u64(), u64::MAX);
    assert_eq!(id.table_id(), u32::MAX);
    assert_eq!(id.region_number(), u32::MAX);
    assert_eq!(ident().get_region_id(), RegionId::new(1024, 1));
}

#[test]
fn region_id_text() {
    assert_eq!(RegionId::new(1024, 1).to_string(), "4398046511105(1024, 1)");
    assert_eq!(RegionId::new(0, 0).to_string(), "0(0, 0)");
}

#[test]
fn region_ident_text() {
    assert_eq!(
        ident().to_string(),
        "RegionIdent(datanode_id='2', table_id=1024, region_number=1, engine = mito2)"
    );
}

#[test]
fn open_region_new_and_text() {
    let open = OpenRegion::new(ident(), "test/foo", HashMap::new(), HashMap::new(), false);
    assert_eq!(open.region_storage_path, "test/foo");
    assert!(!open.skip_wal_replay);
    assert!(open.region_options.is_empty());
    assert_eq!(
        open.to_string(),
        "OpenRegion(region_ident=RegionIdent(datanode_id='2', table_id=1024, region_number=1, engine = mito2), region_storage_path=test/foo)"
    );
    let mut wal = HashMap::new();
    wal.insert(1u32, "kafka".to_string());
    let open = OpenRegion::new(ident(), "p", HashMap::from([("a".to_string(), "aa".to_string())]), wal, true);
    assert!(open.skip_wal_replay);
    assert_eq!(open.region_wal_options.get(&1).map(|s| s.as_str()), Some("kafka"));
    assert_eq!(open.region_options.get("a").map(|s| s.as_str()), Some("aa"));
}

#[test]
fn replies_text() {
    let simple = SimpleReply { result: true, error: None };
    assert_eq!(simple.to_string(), "(result=true, error=None)");
    let simple = SimpleReply { result: false, error: Some("say \"hi\"\n".to_string()) };
    assert_eq!(simple.to_string(), "(result=false, error=Some(\"say \\\"hi\\\"\\n\"))");

    let downgrade = DowngradeRegionReply {
        last_entry_id: Some(42),
        metadata_last_entry_id: None,
        exists: true,
        error: Some("oops".to_string()),
    };
    assert_eq!(downgrade.to_string(), "(last_entry_id=Some(42), exists=true, error=Some(\"oops\"))");

    let upgrade = UpgradeRegionReply { ready: false, exists: true, error: None };
    assert_eq!(upgrade.to_string(), "(ready=false, exists=true, error=None)");

    assert_eq!(
        InstructionReply::OpenRegion(SimpleReply { result: true, error: None }).to_string(),
        "InstructionReply::OpenRegion((result=true, error=None))"
    );
    assert_eq!(
        InstructionReply::CloseRegion(SimpleReply { result: false, error: None }).to_string(),
        "InstructionReply::CloseRegion((result=false, error=None))"
    );
    assert_eq!(
        InstructionReply::FlushRegion(SimpleReply { result: true, error: None }).to_string(),
        "InstructionReply::FlushRegion((result=true, error=None))"
    );
    assert_eq!(
        InstructionReply::UpgradeRegion(upgrade).to_string(),
        "InstructionReply::UpgradeRegion((ready=false, exists=true, error=None))"
    );
    assert_eq!(
        InstructionReply::DowngradeRegion(downgrade).to_string(),
        "InstructionReply::DowngradeRegion((last_entry_id=Some(42), exists=true, error=Some(\"oops\")))"
    );
}

#[test]
fn downgrade_region_text() {
    let d = DowngradeRegion { region_id: RegionId::new(1, 2), flush_timeout: Some(Duration::from_millis(1500)) };
    assert_eq!(d.to_string(), "DowngradeRegion(region_id=4294967298(1, 2), flush_timeout=Some(1.5s))");
    let d = DowngradeRegion { region_id: RegionId::new(1, 2), flush_timeout: None };
    assert_eq!(d.to_string(), "DowngradeRegion(region_id=4294967298(1, 2), flush_timeout=None)");
}

#[test]
fn instruction_text_is_its_kind() {
    let open = OpenRegion::new(ident(), "test/foo", HashMap::new(), HashMap::new(), false);
    assert_eq!(Instruction::OpenRegion(open).to_string(), "OpenRegion");
    assert_eq!(Instruction::CloseRegion(ident()).to_string(), "CloseRegion");
    let upgrade = UpgradeRegion {
        region_id: RegionId::new(1, 1),
        last_entry_id: None,
        metadata_last_entry_id: None,
        replay_timeout: None,
        location_id: None,
    };
    assert_eq!(Instruction::UpgradeRegion(upgrade).to_string(), "UpgradeRegion");
    let downgrade = DowngradeRegion { region_id: RegionId::new(1, 1), flush_timeout: None };
    assert_eq!(Instruction::DowngradeRegion(downgrade).to_string(), "DowngradeRegion");
    assert_eq!(Instruction::InvalidateCaches(vec![]).to_string(), "InvalidateCaches");
    assert_eq!(Instruction::FlushRegions(FlushRegions { region_ids: vec![] }).to_string(), "FlushRegions");
    assert_eq!(Instruction::FlushRegion(RegionId::new(1, 1)).to_string(), "FlushRegion");
}

#[test]
fn plain_error_text_is_quoted() {
    let simple = SimpleReply { result: true, error: Some("boom".to_string()) };
    assert_eq!(simple.to_string(), "(result=true, error=Some(\"boom\"))");
}

#[test]
fn instructions_compare_by_value() {
    let open = OpenRegion::new(ident(), "test/foo", HashMap::new(), HashMap::new(), false);
    assert_eq!(open.clone(), open);
    assert_ne!(open, OpenRegion::new(ident(), "test/foo", HashMap::new(), HashMap::new(), true));
    assert_eq!(Instruction::CloseRegion(ident()), Instruction::CloseRegion(ident()));
    let mut other = ident();
    other.region_number = 2;
    assert_ne!(ident(), other);
    let mut seen = std::collections::HashSet::new();
    seen.insert(ident());
    assert!(seen.contains(&ident()));
    assert!(!seen.contains(&other));
    assert_eq!(
        SimpleReply { result: true, error: None },
        SimpleReply { result: true, error: None }
    );
}
