//! Scanning for nearby BLE devices.
//!
//! BLE adapter scanning is delegated entirely to an external platform
//! plugin; this entry point is kept for callers of the old operation and
//! answers with a single informational record pointing them at the
//! plugin.

use vstd::prelude::*;

use crate::error::BridgeResult;
use crate::json::empty_json_map;
use crate::json::json_map_insert;
use crate::json::json_map_new;
use crate::json::json_object;
use crate::json::json_of_object;
use crate::json::json_of_string;
use crate::json::json_string;

verus! {

/// The contents of the informational record a scan request is answered
/// with.
pub open spec fn scan_notice_model() -> Map<Seq<char>, serde_json::Value> {
    empty_json_map().insert(
        "note"@,
        json_of_string(
            "BLE scanning now uses tauri-plugin-blec. Please call startScan() from the frontend."@,
        ),
    ).insert(
        "migration"@,
        json_of_string(
            "import { startScan } from '@mnlphlp/plugin-blec'; await startScan((devices) => { ... }, 5000);"@,
        ),
    ).insert("type"@, json_of_string("info"@))
}

/// Answers a scan request with one informational record; the timeout is
/// accepted for compatibility and ignored.
pub fn scan(_timeout_ms: Option<u64>) -> (r: BridgeResult<Vec<serde_json::Value>>)
    ensures
        r matches Ok(v) && v@.len() == 1 && v@[0] == json_of_object(scan_notice_model()),
{
    let mut m = json_map_new();
    json_map_insert(
        &mut m,
        "note",
        json_string(
            "BLE scanning now uses tauri-plugin-blec. Please call startScan() from the frontend.",
        ),
    );
    json_map_insert(
        &mut m,
        "migration",
        json_string(
            "import { startScan } from '@mnlphlp/plugin-blec'; await startScan((devices) => { ... }, 5000);",
        ),
    );
    json_map_insert(&mut m, "type", json_string("info"));
    let mut out: Vec<serde_json::Value> = Vec::new();
    out.push(json_object(m));
    Ok(out)
}

} // verus!
