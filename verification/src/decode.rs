use vstd::prelude::*;
use crate::json::{
    JsonValue, s_lookup, lookup, ok_str, v_str, ok_i64, v_i64, ok_bool, v_bool, ok_opt_str,
    v_opt_str, ok_opt_i64, v_opt_i64, ok_opt_bool, v_opt_bool, ok_arr, v_arr, ok_obj, v_obj,
    get_str, get_i64, get_bool, get_opt_str, get_opt_i64, get_opt_bool, get_arr, get_obj,
};
use crate::model::{
    Header, HeaderV, OsVersion, OsVersionV, BundleInfo, BundleInfoV, StoreInfo, StoreInfoV,
    InstructionByteStream, InstructionByteStreamV, Exception, ExceptionV, Termination,
    TerminationV, Asi, AsiV, ExtMod, ExtModV, ExtMods, ExtModsV, Frame, FrameV, Thread, ThreadV,
    UsedImage, UsedImageV, SharedCache, SharedCacheV, ThreadTriggered, ThreadTriggeredV,
    LegacyInfo, LegacyInfoV, Rollout, RolloutV, TrialInfo, TrialInfoV, Body, BodyV,
};

verus! {

pub open spec fn ints_ok(items: Seq<JsonValue>) -> bool {
    forall|k: int| 0 <= k < items.len() ==> items[k] is Int
}

pub open spec fn ints_v(items: Seq<JsonValue>) -> Seq<i64> {
    Seq::new(items.len(), |k: int| items[k]->i)
}

pub fn decode_ints(items: &Vec<JsonValue>) -> (r: Result<Vec<i64>, ()>)
    ensures
        r is Ok <==> ints_ok(items@),
        r matches Ok(ns) ==> ns@ == ints_v(items@),
{
    let mut out: Vec<i64> = Vec::new();
    let n: usize = items.len();
    let mut k: usize = 0;
    while k < n
        invariant
            n == items@.len(),
            k <= n,
            out@.len() == k,
            forall|j: int| 0 <= j < k ==> items@[j] is Int,
            forall|j: int| 0 <= j < k ==> out@[j] == items@[j]->i,
        decreases n - k,
    {
        match &items[k] {
            JsonValue::Int { i } => out.push(*i),
            _ => {
                return Err(());
            },
        }
        k += 1;
    }
    proof {
        assert(out@ =~= ints_v(items@));
    }
    Ok(out)
}

pub open spec fn strs_ok(items: Seq<JsonValue>) -> bool {
    forall|k: int| 0 <= k < items.len() ==> items[k] is Str
}

pub open spec fn strs_v(items: Seq<JsonValue>) -> Seq<Seq<char>> {
    Seq::new(items.len(), |k: int| items[k]->s@)
}

pub fn decode_strs(items: &Vec<JsonValue>) -> (r: Result<Vec<String>, ()>)
    ensures
        r is Ok <==> strs_ok(items@),
        r matches Ok(ss) ==> ss@.map_values(|s: String| s@) == strs_v(items@),
{
    let mut out: Vec<String> = Vec::new();
    let n: usize = items.len();
    let mut k: usize = 0;
    while k < n
        invariant
            n == items@.len(),
            k <= n,
            out@.len() == k,
            forall|j: int| 0 <= j < k ==> items@[j] is Str,
            forall|j: int| 0 <= j < k ==> out@[j]@ == items@[j]->s@,
        decreases n - k,
    {
        match &items[k] {
            JsonValue::Str { s } => out.push(s.clone()),
            _ => {
                return Err(());
            },
        }
        k += 1;
    }
    proof {
        assert(out@.map_values(|s: String| s@) =~= strs_v(items@));
    }
    Ok(out)
}

pub open spec fn header_fields_ok(f: Seq<(String, JsonValue)>) -> bool {
    &&& ok_str(f, "app_name"@)
    &&& ok_str(f, "timestamp"@)
    &&& ok_str(f, "app_version"@)
    &&& ok_str(f, "slice_uuid"@)
    &&& ok_str(f, "build_version"@)
    &&& ok_i64(f, "platform"@)
    &&& ok_str(f, "bundleID"@)
    &&& ok_i64(f, "share_with_app_devs"@)
    &&& ok_i64(f, "is_first_party"@)
    &&& ok_str(f, "bug_type"@)
    &&& ok_str(f, "os_version"@)
    &&& ok_i64(f, "roots_installed"@)
    &&& ok_str(f, "name"@)
    &&& ok_str(f, "incident_id"@)
}

pub open spec fn header_fields_v(f: Seq<(String, JsonValue)>) -> HeaderV {
    HeaderV {
        app_name: v_str(f, "app_name"@),
        timestamp: v_str(f, "timestamp"@),
        app_version: v_str(f, "app_version"@),
        slice_uuid: v_str(f, "slice_uuid"@),
        build_version: v_str(f, "build_version"@),
        platform: v_i64(f, "platform"@),
        bundle_id: v_str(f, "bundleID"@),
        share_with_app_devs: v_i64(f, "share_with_app_devs"@),
        is_first_party: v_i64(f, "is_first_party"@),
        bug_type: v_str(f, "bug_type"@),
        os_version: v_str(f, "os_version"@),
        roots_installed: v_i64(f, "roots_installed"@),
        name: v_str(f, "name"@),
        incident_id: v_str(f, "incident_id"@),
    }
}

/// The header decodes exactly when the document is an object whose present
/// fields have the right types; absent fields default.
pub open spec fn header_ok(v: JsonValue) -> bool {
    v is Obj && header_fields_ok(v->fields@)
}

pub open spec fn header_v(v: JsonValue) -> HeaderV {
    header_fields_v(v->fields@)
}

pub fn decode_header(v: &JsonValue) -> (r: Result<Header, ()>)
    ensures
        r is Ok <==> header_ok(*v),
        r matches Ok(h) ==> h@ == header_v(*v),
{
    let f = match v {
        JsonValue::Obj { fields } => fields,
        _ => {
            return Err(());
        },
    };
    let app_name = get_str(f, "app_name")?;
    let timestamp = get_str(f, "timestamp")?;
    let app_version = get_str(f, "app_version")?;
    let slice_uuid = get_str(f, "slice_uuid")?;
    let build_version = get_str(f, "build_version")?;
    let platform = get_i64(f, "platform")?;
    let bundle_id = get_str(f, "bundleID")?;
    let share_with_app_devs = get_i64(f, "share_with_app_devs")?;
    let is_first_party = get_i64(f, "is_first_party")?;
    let bug_type = get_str(f, "bug_type")?;
    let os_version = get_str(f, "os_version")?;
    let roots_installed = get_i64(f, "roots_installed")?;
    let name = get_str(f, "name")?;
    let incident_id = get_str(f, "incident_id")?;
    Ok(
        Header {
            app_name,
            timestamp,
            app_version,
            slice_uuid,
            build_version,
            platform,
            bundle_id,
            share_with_app_devs,
            is_first_party,
            bug_type,
            os_version,
            roots_installed,
            name,
            incident_id,
        },
    )
}

pub open spec fn os_version_fields_ok(f: Seq<(String, JsonValue)>) -> bool {
    &&& ok_str(f, "train"@)
    &&& ok_str(f, "build"@)
    &&& ok_str(f, "releaseType"@)
}

pub open spec fn os_version_fields_v(f: Seq<(String, JsonValue)>) -> OsVersionV {
    OsVersionV {
        train: v_str(f, "train"@),
        build: v_str(f, "build"@),
        release_type: v_str(f, "releaseType"@),
    }
}

pub fn decode_os_version(f: &Vec<(String, JsonValue)>) -> (r: Result<OsVersion, ()>)
    ensures
        r is Ok <==> os_version_fields_ok(f@),
        r matches Ok(x) ==> x@ == os_version_fields_v(f@),
{
    let train = get_str(f, "train")?;
    let build = get_str(f, "build")?;
    let release_type = get_str(f, "releaseType")?;
    Ok(OsVersion { train, build, release_type })
}

pub open spec fn bundle_info_fields_ok(f: Seq<(String, JsonValue)>) -> bool {
    &&& ok_str(f, "CFBundleShortVersionString"@)
    &&& ok_str(f, "CFBundleVersion"@)
    &&& ok_str(f, "CFBundleIdentifier"@)
}

pub open spec fn bundle_info_fields_v(f: Seq<(String, JsonValue)>) -> BundleInfoV {
    BundleInfoV {
        cfbundle_short_version_string: v_str(f, "CFBundleShortVersionString"@),
        cfbundle_version: v_str(f, "CFBundleVersion"@),
        cfbundle_identifier: v_str(f, "CFBundleIdentifier"@),
    }
}

pub fn decode_bundle_info(f: &Vec<(String, JsonValue)>) -> (r: Result<BundleInfo, ()>)
    ensures
        r is Ok <==> bundle_info_fields_ok(f@),
        r matches Ok(x) ==> x@ == bundle_info_fields_v(f@),
{
    let cfbundle_short_version_string = get_str(f, "CFBundleShortVersionString")?;
    let cfbundle_version = get_str(f, "CFBundleVersion")?;
    let cfbundle_identifier = get_str(f, "CFBundleIdentifier")?;
    Ok(BundleInfo { cfbundle_short_version_string, cfbundle_version, cfbundle_identifier })
}

pub open spec fn store_info_fields_ok(f: Seq<(String, JsonValue)>) -> bool {
    &&& ok_str(f, "deviceIdentifierForVendor"@)
    &&& ok_bool(f, "thirdParty"@)
}

pub open spec fn store_info_fields_v(f: Seq<(String, JsonValue)>) -> StoreInfoV {
    StoreInfoV {
        device_identifier_for_vendor: v_str(f, "deviceIdentifierForVendor"@),
        third_party: v_bool(f, "thirdParty"@),
    }
}

pub fn decode_store_info(f: &Vec<(String, JsonValue)>) -> (r: Result<StoreInfo, ()>)
    ensures
        r is Ok <==> store_info_fields_ok(f@),
        r matches Ok(x) ==> x@ == store_info_fields_v(f@),
{
    let device_identifier_for_vendor = get_str(f, "deviceIdentifierForVendor")?;
    let third_party = get_bool(f, "thirdParty")?;
    Ok(StoreInfo { device_identifier_for_vendor, third_party })
}

pub open spec fn ibs_fields_ok(f: Seq<(String, JsonValue)>) -> bool {
    &&& ok_str(f, "beforePC"@)
    &&& ok_str(f, "atPC"@)
}

pub open spec fn ibs_fields_v(f: Seq<(String, JsonValue)>) -> InstructionByteStreamV {
    InstructionByteStreamV { before_pc: v_str(f, "beforePC"@), at_pc: v_str(f, "atPC"@) }
}

pub fn decode_ibs(f: &Vec<(String, JsonValue)>) -> (r: Result<InstructionByteStream, ()>)
    ensures
        r is Ok <==> ibs_fields_ok(f@),
        r matches Ok(x) ==> x@ == ibs_fields_v(f@),
{
    let before_pc = get_str(f, "beforePC")?;
    let at_pc = get_str(f, "atPC")?;
    Ok(InstructionByteStream { before_pc, at_pc })
}

pub open spec fn exception_fields_ok(f: Seq<(String, JsonValue)>) -> bool {
    &&& ok_str(f, "codes"@)
    &&& ok_arr(f, "rawCodes"@)
    &&& ints_ok(v_arr(f, "rawCodes"@))
    &&& ok_str(f, "type"@)
    &&& ok_str(f, "signal"@)
}

pub open spec fn exception_fields_v(f: Seq<(String, JsonValue)>) -> ExceptionV {
    ExceptionV {
        codes: v_str(f, "codes"@),
        raw_codes: ints_v(v_arr(f, "rawCodes"@)),
        type_field: v_str(f, "type"@),
        signal: v_str(f, "signal"@),
    }
}

pub fn decode_exception(f: &Vec<(String, JsonValue)>) -> (r: Result<Exception, ()>)
    ensures
        r is Ok <==> exception_fields_ok(f@),
        r matches Ok(x) ==> x@ == exception_fields_v(f@),
{
    let codes = get_str(f, "codes")?;
    let raw_codes = match get_arr(f, "rawCodes")? {
        Some(items) => decode_ints(items)?,
        None => Vec::new(),
    };
    let type_field = get_str(f, "type")?;
    let signal = get_str(f, "signal")?;
    proof {
        assert(raw_codes@ =~= ints_v(v_arr(f@, "rawCodes"@)));
    }
    Ok(Exception { codes, raw_codes, type_field, signal })
}

pub open spec fn termination_fields_ok(f: Seq<(String, JsonValue)>) -> bool {
    &&& ok_i64(f, "flags"@)
    &&& ok_i64(f, "code"@)
    &&& ok_str(f, "namespace"@)
    &&& ok_str(f, "indicator"@)
    &&& ok_str(f, "byProc"@)
    &&& ok_i64(f, "byPid"@)
}

pub open spec fn termination_fields_v(f: Seq<(String, JsonValue)>) -> TerminationV {
    TerminationV {
        flags: v_i64(f, "flags"@),
        code: v_i64(f, "code"@),
        namespace: v_str(f, "namespace"@),
        indicator: v_str(f, "indicator"@),
        by_proc: v_str(f, "byProc"@),
        by_pid: v_i64(f, "byPid"@),
    }
}

pub fn decode_termination(f: &Vec<(String, JsonValue)>) -> (r: Result<Termination, ()>)
    ensures
        r is Ok <==> termination_fields_ok(f@),
        r matches Ok(x) ==> x@ == termination_fields_v(f@),
{
    let flags = get_i64(f, "flags")?;
    let code = get_i64(f, "code")?;
    let namespace = get_str(f, "namespace")?;
    let indicator = get_str(f, "indicator")?;
    let by_proc = get_str(f, "byProc")?;
    let by_pid = get_i64(f, "byPid")?;
    Ok(Termination { flags, code, namespace, indicator, by_proc, by_pid })
}

pub open spec fn asi_fields_ok(f: Seq<(String, JsonValue)>) -> bool {
    &&& ok_arr(f, "libsystem_c.dylib"@)
    &&& strs_ok(v_arr(f, "libsystem_c.dylib"@))
}

pub open spec fn asi_fields_v(f: Seq<(String, JsonValue)>) -> AsiV {
    AsiV { libsystem_c_dylib: strs_v(v_arr(f, "libsystem_c.dylib"@)) }
}

pub fn decode_asi(f: &Vec<(String, JsonValue)>) -> (r: Result<Asi, ()>)
    ensures
        r is Ok <==> asi_fields_ok(f@),
        r matches Ok(x) ==> x@ == asi_fields_v(f@),
{
    let libsystem_c_dylib = match get_arr(f, "libsystem_c.dylib")? {
        Some(items) => decode_strs(items)?,
        None => Vec::new(),
    };
    proof {
        assert(libsystem_c_dylib@.map_values(|s: String| s@) =~= strs_v(
            v_arr(f@, "libsystem_c.dylib"@),
        ));
    }
    Ok(Asi { libsystem_c_dylib })
}

pub open spec fn ext_mod_fields_ok(f: Seq<(String, JsonValue)>) -> bool {
    &&& ok_i64(f, "thread_create"@)
    &&& ok_i64(f, "thread_set_state"@)
    &&& ok_i64(f, "task_for_pid"@)
}

pub open spec fn ext_mod_fields_v(f: Seq<(String, JsonValue)>) -> ExtModV {
    ExtModV {
        thread_create: v_i64(f, "thread_create"@),
        thread_set_state: v_i64(f, "thread_set_state"@),
        task_for_pid: v_i64(f, "task_for_pid"@),
    }
}

pub fn decode_ext_mod(f: &Vec<(String, JsonValue)>) -> (r: Result<ExtMod, ()>)
    ensures
        r is Ok <==> ext_mod_fields_ok(f@),
        r matches Ok(x) ==> x@ == ext_mod_fields_v(f@),
{
    let thread_create = get_i64(f, "thread_create")?;
    let thread_set_state = get_i64(f, "thread_set_state")?;
    let task_for_pid = get_i64(f, "task_for_pid")?;
    Ok(ExtMod { thread_create, thread_set_state, task_for_pid })
}

pub open spec fn ext_mods_fields_ok(f: Seq<(String, JsonValue)>) -> bool {
    &&& ok_obj(f, "caller"@)
    &&& ext_mod_fields_ok(v_obj(f, "caller"@))
    &&& ok_obj(f, "system"@)
    &&& ext_mod_fields_ok(v_obj(f, "system"@))
    &&& ok_obj(f, "targeted"@)
    &&& ext_mod_fields_ok(v_obj(f, "targeted"@))
    &&& ok_i64(f, "warnings"@)
}

pub open spec fn ext_mods_fields_v(f: Seq<(String, JsonValue)>) -> ExtModsV {
    ExtModsV {
        caller: ext_mod_fields_v(v_obj(f, "caller"@)),
        system: ext_mod_fields_v(v_obj(f, "system"@)),
        targeted: ext_mod_fields_v(v_obj(f, "targeted"@)),
        warnings: v_i64(f, "warnings"@),
    }
}

pub fn decode_ext_mods(f: &Vec<(String, JsonValue)>) -> (r: Result<ExtMods, ()>)
    ensures
        r is Ok <==> ext_mods_fields_ok(f@),
        r matches Ok(x) ==> x@ == ext_mods_fields_v(f@),
{
    let empty: Vec<(String, JsonValue)> = Vec::new();
    let caller = match get_obj(f, "caller")? {
        Some(g) => decode_ext_mod(g)?,
        None => decode_ext_mod(&empty)?,
    };
    let system = match get_obj(f, "system")? {
        Some(g) => decode_ext_mod(g)?,
        None => decode_ext_mod(&empty)?,
    };
    let targeted = match get_obj(f, "targeted")? {
        Some(g) => decode_ext_mod(g)?,
        None => decode_ext_mod(&empty)?,
    };
    let warnings = get_i64(f, "warnings")?;
    Ok(ExtMods { caller, system, targeted, warnings })
}

pub open spec fn tt_fields_ok(f: Seq<(String, JsonValue)>) -> bool {
    &&& ok_str(f, "name"@)
    &&& ok_str(f, "queue"@)
}

pub open spec fn tt_fields_v(f: Seq<(String, JsonValue)>) -> ThreadTriggeredV {
    ThreadTriggeredV { name: v_str(f, "name"@), queue: v_str(f, "queue"@) }
}

pub fn decode_tt(f: &Vec<(String, JsonValue)>) -> (r: Result<ThreadTriggered, ()>)
    ensures
        r is Ok <==> tt_fields_ok(f@),
        r matches Ok(x) ==> x@ == tt_fields_v(f@),
{
    let name = get_str(f, "name")?;
    let queue = get_str(f, "queue")?;
    Ok(ThreadTriggered { name, queue })
}

/// Absent legacy data defaults whole, and a present record defaults its
/// absent fields like every other.
pub open spec fn legacy_fields_ok(f: Seq<(String, JsonValue)>) -> bool {
    match s_lookup(f, "threadTriggered"@) {
        None => true,
        Some(v) => v is Obj && tt_fields_ok(v->fields@),
    }
}

pub open spec fn legacy_fields_v(f: Seq<(String, JsonValue)>) -> LegacyInfoV {
    match s_lookup(f, "threadTriggered"@) {
        Some(JsonValue::Obj { fields: g }) => LegacyInfoV { thread_triggered: tt_fields_v(g@) },
        _ => LegacyInfoV {
            thread_triggered: ThreadTriggeredV { name: Seq::empty(), queue: Seq::empty() },
        },
    }
}

pub fn decode_legacy(f: &Vec<(String, JsonValue)>) -> (r: Result<LegacyInfo, ()>)
    ensures
        r is Ok <==> legacy_fields_ok(f@),
        r matches Ok(x) ==> x@ == legacy_fields_v(f@),
{
    let thread_triggered = match get_obj(f, "threadTriggered")? {
        Some(g) => decode_tt(g)?,
        None => ThreadTriggered { name: String::new(), queue: String::new() },
    };
    Ok(LegacyInfo { thread_triggered })
}

pub open spec fn rollout_fields_ok(f: Seq<(String, JsonValue)>) -> bool {
    &&& ok_str(f, "rolloutId"@)
    &&& ok_obj(f, "factorPackIds"@)
    &&& ok_i64(f, "deploymentId"@)
}

pub open spec fn rollout_fields_v(f: Seq<(String, JsonValue)>) -> RolloutV {
    RolloutV { rollout_id: v_str(f, "rolloutId"@), deployment_id: v_i64(f, "deploymentId"@) }
}

pub open spec fn rollout_ok(v: JsonValue) -> bool {
    v is Obj && rollout_fields_ok(v->fields@)
}

pub open spec fn rollout_v(v: JsonValue) -> RolloutV {
    rollout_fields_v(v->fields@)
}

pub fn decode_rollout(v: &JsonValue) -> (r: Result<Rollout, ()>)
    ensures
        r is Ok <==> rollout_ok(*v),
        r matches Ok(x) ==> x@ == rollout_v(*v),
{
    let f = match v {
        JsonValue::Obj { fields } => fields,
        _ => {
            return Err(());
        },
    };
    let rollout_id = get_str(f, "rolloutId")?;
    let _factor_pack_ids = get_obj(f, "factorPackIds")?;
    let deployment_id = get_i64(f, "deploymentId")?;
    Ok(Rollout { rollout_id, deployment_id })
}

pub open spec fn rollouts_ok(items: Seq<JsonValue>) -> bool {
    forall|k: int| 0 <= k < items.len() ==> rollout_ok(items[k])
}

pub open spec fn rollouts_v(items: Seq<JsonValue>) -> Seq<RolloutV> {
    Seq::new(items.len(), |k: int| rollout_v(items[k]))
}

pub fn decode_rollouts(items: &Vec<JsonValue>) -> (r: Result<Vec<Rollout>, ()>)
    ensures
        r is Ok <==> rollouts_ok(items@),
        r matches Ok(rs) ==> rs@.map_values(|x: Rollout| x@) == rollouts_v(items@),
{
    let mut out: Vec<Rollout> = Vec::new();
    let n: usize = items.len();
    let mut k: usize = 0;
    while k < n
        invariant
            n == items@.len(),
            k <= n,
            out@.len() == k,
            forall|j: int| 0 <= j < k ==> rollout_ok(items@[j]),
            forall|j: int| 0 <= j < k ==> out@[j]@ == rollout_v(items@[j]),
        decreases n - k,
    {
        match decode_rollout(&items[k]) {
            Ok(x) => out.push(x),
            Err(()) => {
                proof {
                    assert(!rollout_ok(items@[k as int]));
                }
                return Err(());
            },
        }
        k += 1;
    }
    proof {
        assert(out@.map_values(|x: Rollout| x@) =~= rollouts_v(items@));
    }
    Ok(out)
}

pub open spec fn trial_fields_ok(f: Seq<(String, JsonValue)>) -> bool {
    &&& ok_arr(f, "rollouts"@)
    &&& rollouts_ok(v_arr(f, "rollouts"@))
    &&& ok_arr(f, "experiments"@)
}

pub open spec fn trial_fields_v(f: Seq<(String, JsonValue)>) -> TrialInfoV {
    TrialInfoV { rollouts: rollouts_v(v_arr(f, "rollouts"@)) }
}

pub fn decode_trial(f: &Vec<(String, JsonValue)>) -> (r: Result<TrialInfo, ()>)
    ensures
        r is Ok <==> trial_fields_ok(f@),
        r matches Ok(x) ==> x@ == trial_fields_v(f@),
{
    let rollouts = match get_arr(f, "rollouts")? {
        Some(items) => decode_rollouts(items)?,
        None => Vec::new(),
    };
    let _experiments = get_arr(f, "experiments")?;
    proof {
        assert(rollouts@.map_values(|x: Rollout| x@) =~= rollouts_v(v_arr(f@, "rollouts"@)));
    }
    Ok(TrialInfo { rollouts })
}

pub open spec fn shared_cache_fields_ok(f: Seq<(String, JsonValue)>) -> bool {
    &&& ok_i64(f, "base"@)
    &&& ok_i64(f, "size"@)
    &&& ok_str(f, "uuid"@)
}

pub open spec fn shared_cache_fields_v(f: Seq<(String, JsonValue)>) -> SharedCacheV {
    SharedCacheV { base: v_i64(f, "base"@), size: v_i64(f, "size"@), uuid: v_str(f, "uuid"@) }
}

pub fn decode_shared_cache(f: &Vec<(String, JsonValue)>) -> (r: Result<SharedCache, ()>)
    ensures
        r is Ok <==> shared_cache_fields_ok(f@),
        r matches Ok(x) ==> x@ == shared_cache_fields_v(f@),
{
    let base = get_i64(f, "base")?;
    let size = get_i64(f, "size")?;
    let uuid = get_str(f, "uuid")?;
    Ok(SharedCache { base, size, uuid })
}

pub open spec fn frame_fields_ok(f: Seq<(String, JsonValue)>) -> bool {
    &&& ok_i64(f, "imageOffset"@)
    &&& ok_opt_str(f, "symbol"@)
    &&& ok_opt_i64(f, "symbolLocation"@)
    &&& ok_i64(f, "imageIndex"@)
}

pub open spec fn frame_fields_v(f: Seq<(String, JsonValue)>) -> FrameV {
    FrameV {
        image_offset: v_i64(f, "imageOffset"@),
        symbol: v_opt_str(f, "symbol"@),
        symbol_location: v_opt_i64(f, "symbolLocation"@),
        image_index: v_i64(f, "imageIndex"@),
    }
}

pub open spec fn frame_ok(v: JsonValue) -> bool {
    v is Obj && frame_fields_ok(v->fields@)
}

pub open spec fn frame_v(v: JsonValue) -> FrameV {
    frame_fields_v(v->fields@)
}

pub fn decode_frame(v: &JsonValue) -> (r: Result<Frame, ()>)
    ensures
        r is Ok <==> frame_ok(*v),
        r matches Ok(x) ==> x@ == frame_v(*v),
{
    let f = match v {
        JsonValue::Obj { fields } => fields,
        _ => {
            return Err(());
        },
    };
    let image_offset = get_i64(f, "imageOffset")?;
    let symbol = get_opt_str(f, "symbol")?;
    let symbol_location = get_opt_i64(f, "symbolLocation")?;
    let image_index = get_i64(f, "imageIndex")?;
    Ok(Frame { image_offset, symbol, symbol_location, image_index })
}

pub open spec fn frames_ok(items: Seq<JsonValue>) -> bool {
    forall|k: int| 0 <= k < items.len() ==> frame_ok(items[k])
}

pub open spec fn frames_v(items: Seq<JsonValue>) -> Seq<FrameV> {
    Seq::new(items.len(), |k: int| frame_v(items[k]))
}

pub fn decode_frames(items: &Vec<JsonValue>) -> (r: Result<Vec<Frame>, ()>)
    ensures
        r is Ok <==> frames_ok(items@),
        r matches Ok(fs) ==> fs@.map_values(|x: Frame| x@) == frames_v(items@),
{
    let mut out: Vec<Frame> = Vec::new();
    let n: usize = items.len();
    let mut k: usize = 0;
    while k < n
        invariant
            n == items@.len(),
            k <= n,
            out@.len() == k,
            forall|j: int| 0 <= j < k ==> frame_ok(items@[j]),
            forall|j: int| 0 <= j < k ==> out@[j]@ == frame_v(items@[j]),
        decreases n - k,
    {
        match decode_frame(&items[k]) {
            Ok(x) => out.push(x),
            Err(()) => {
                proof {
                    assert(!frame_ok(items@[k as int]));
                }
                return Err(());
            },
        }
        k += 1;
    }
    proof {
        assert(out@.map_values(|x: Frame| x@) =~= frames_v(items@));
    }
    Ok(out)
}

pub open spec fn thread_fields_ok(f: Seq<(String, JsonValue)>) -> bool {
    &&& ok_obj(f, "threadState"@)
    &&& ok_i64(f, "id"@)
    &&& ok_opt_bool(f, "triggered"@)
    &&& ok_opt_str(f, "name"@)
    &&& ok_opt_str(f, "queue"@)
    &&& ok_arr(f, "frames"@)
    &&& frames_ok(v_arr(f, "frames"@))
}

pub open spec fn thread_fields_v(f: Seq<(String, JsonValue)>) -> ThreadV {
    ThreadV {
        id: v_i64(f, "id"@),
        triggered: v_opt_bool(f, "triggered"@),
        name: v_opt_str(f, "name"@),
        queue: v_opt_str(f, "queue"@),
        frames: frames_v(v_arr(f, "frames"@)),
    }
}

pub open spec fn thread_ok(v: JsonValue) -> bool {
    v is Obj && thread_fields_ok(v->fields@)
}

pub open spec fn thread_v(v: JsonValue) -> ThreadV {
    thread_fields_v(v->fields@)
}

pub fn decode_thread(v: &JsonValue) -> (r: Result<Thread, ()>)
    ensures
        r is Ok <==> thread_ok(*v),
        r matches Ok(x) ==> x@ == thread_v(*v),
{
    let f = match v {
        JsonValue::Obj { fields } => fields,
        _ => {
            return Err(());
        },
    };
    let _thread_state = get_obj(f, "threadState")?;
    let id = get_i64(f, "id")?;
    let triggered = get_opt_bool(f, "triggered")?;
    let name = get_opt_str(f, "name")?;
    let queue = get_opt_str(f, "queue")?;
    let frames = match get_arr(f, "frames")? {
        Some(items) => decode_frames(items)?,
        None => Vec::new(),
    };
    proof {
        assert(frames@.map_values(|x: Frame| x@) =~= frames_v(v_arr(f@, "frames"@)));
    }
    Ok(Thread { id, triggered, name, queue, frames })
}

pub open spec fn threads_ok(items: Seq<JsonValue>) -> bool {
    forall|k: int| 0 <= k < items.len() ==> thread_ok(items[k])
}

pub open spec fn threads_v(items: Seq<JsonValue>) -> Seq<ThreadV> {
    Seq::new(items.len(), |k: int| thread_v(items[k]))
}

pub fn decode_threads(items: &Vec<JsonValue>) -> (r: Result<Vec<Thread>, ()>)
    ensures
        r is Ok <==> threads_ok(items@),
        r matches Ok(ts) ==> ts@.map_values(|x: Thread| x@) == threads_v(items@),
{
    let mut out: Vec<Thread> = Vec::new();
    let n: usize = items.len();
    let mut k: usize = 0;
    while k < n
        invariant
            n == items@.len(),
            k <= n,
            out@.len() == k,
            forall|j: int| 0 <= j < k ==> thread_ok(items@[j]),
            forall|j: int| 0 <= j < k ==> out@[j]@ == thread_v(items@[j]),
        decreases n - k,
    {
        match decode_thread(&items[k]) {
            Ok(x) => out.push(x),
            Err(()) => {
                proof {
                    assert(!thread_ok(items@[k as int]));
                }
                return Err(());
            },
        }
        k += 1;
    }
    proof {
        assert(out@.map_values(|x: Thread| x@) =~= threads_v(items@));
    }
    Ok(out)
}

pub open spec fn image_fields_ok(f: Seq<(String, JsonValue)>) -> bool {
    &&& ok_str(f, "source"@)
    &&& ok_opt_str(f, "arch"@)
    &&& ok_i64(f, "base"@)
    &&& ok_opt_str(f, "CFBundleShortVersionString"@)
    &&& ok_opt_str(f, "CFBundleIdentifier"@)
    &&& ok_i64(f, "size"@)
    &&& ok_str(f, "uuid"@)
    &&& ok_opt_str(f, "path"@)
    &&& ok_opt_str(f, "name"@)
    &&& ok_opt_str(f, "CFBundleVersion"@)
}

pub open spec fn image_fields_v(f: Seq<(String, JsonValue)>) -> UsedImageV {
    UsedImageV {
        source: v_str(f, "source"@),
        arch: v_opt_str(f, "arch"@),
        base: v_i64(f, "base"@),
        cfbundle_short_version_string: v_opt_str(f, "CFBundleShortVersionString"@),
        cfbundle_identifier: v_opt_str(f, "CFBundleIdentifier"@),
        size: v_i64(f, "size"@),
        uuid: v_str(f, "uuid"@),
        path: v_opt_str(f, "path"@),
        name: v_opt_str(f, "name"@),
        cfbundle_version: v_opt_str(f, "CFBundleVersion"@),
    }
}

pub open spec fn image_ok(v: JsonValue) -> bool {
    v is Obj && image_fields_ok(v->fields@)
}

pub open spec fn image_v(v: JsonValue) -> UsedImageV {
    image_fields_v(v->fields@)
}

pub fn decode_image(v: &JsonValue) -> (r: Result<UsedImage, ()>)
    ensures
        r is Ok <==> image_ok(*v),
        r matches Ok(x) ==> x@ == image_v(*v),
{
    let f = match v {
        JsonValue::Obj { fields } => fields,
        _ => {
            return Err(());
        },
    };
    let source = get_str(f, "source")?;
    let arch = get_opt_str(f, "arch")?;
    let base = get_i64(f, "base")?;
    let cfbundle_short_version_string = get_opt_str(f, "CFBundleShortVersionString")?;
    let cfbundle_identifier = get_opt_str(f, "CFBundleIdentifier")?;
    let size = get_i64(f, "size")?;
    let uuid = get_str(f, "uuid")?;
    let path = get_opt_str(f, "path")?;
    let name = get_opt_str(f, "name")?;
    let cfbundle_version = get_opt_str(f, "CFBundleVersion")?;
    Ok(
        UsedImage {
            source,
            arch,
            base,
            cfbundle_short_version_string,
            cfbundle_identifier,
            size,
            uuid,
            path,
            name,
            cfbundle_version,
        },
    )
}

pub open spec fn images_ok(items: Seq<JsonValue>) -> bool {
    forall|k: int| 0 <= k < items.len() ==> image_ok(items[k])
}

pub open spec fn images_v(items: Seq<JsonValue>) -> Seq<UsedImageV> {
    Seq::new(items.len(), |k: int| image_v(items[k]))
}

pub fn decode_images(items: &Vec<JsonValue>) -> (r: Result<Vec<UsedImage>, ()>)
    ensures
        r is Ok <==> images_ok(items@),
        r matches Ok(ims) ==> ims@.map_values(|x: UsedImage| x@) == images_v(items@),
{
    let mut out: Vec<UsedImage> = Vec::new();
    let n: usize = items.len();
    let mut k: usize = 0;
    while k < n
        invariant
            n == items@.len(),
            k <= n,
            out@.len() == k,
            forall|j: int| 0 <= j < k ==> image_ok(items@[j]),
            forall|j: int| 0 <= j < k ==> out@[j]@ == image_v(items@[j]),
        decreases n - k,
    {
        match decode_image(&items[k]) {
            Ok(x) => out.push(x),
            Err(()) => {
                proof {
                    assert(!image_ok(items@[k as int]));
                }
                return Err(());
            },
        }
        k += 1;
    }
    proof {
        assert(out@.map_values(|x: UsedImage| x@) =~= images_v(items@));
    }
    Ok(out)
}

pub open spec fn body_fields_ok(f: Seq<(String, JsonValue)>) -> bool {
    &&& ok_i64(f, "uptime"@)
    &&& ok_str(f, "procRole"@)
    &&& ok_i64(f, "version"@)
    &&& ok_i64(f, "userID"@)
    &&& ok_i64(f, "deployVersion"@)
    &&& ok_str(f, "modelCode"@)
    &&& ok_i64(f, "coalitionID"@)
    &&& ok_obj(f, "osVersion"@)
    &&& os_version_fields_ok(v_obj(f, "osVersion"@))
    &&& ok_str(f, "captureTime"@)
    &&& ok_i64(f, "codeSigningMonitor"@)
    &&& ok_str(f, "incident"@)
    &&& ok_i64(f, "pid"@)
    &&& ok_bool(f, "translated"@)
    &&& ok_str(f, "cpuType"@)
    &&& ok_i64(f, "roots_installed"@)
    &&& ok_str(f, "bug_type"@)
    &&& ok_str(f, "procLaunch"@)
    &&& ok_i64(f, "procStartAbsTime"@)
    &&& ok_i64(f, "procExitAbsTime"@)
    &&& ok_str(f, "procName"@)
    &&& ok_str(f, "procPath"@)
    &&& ok_obj(f, "bundleInfo"@)
    &&& bundle_info_fields_ok(v_obj(f, "bundleInfo"@))
    &&& ok_obj(f, "storeInfo"@)
    &&& store_info_fields_ok(v_obj(f, "storeInfo"@))
    &&& ok_str(f, "parentProc"@)
    &&& ok_i64(f, "parentPid"@)
    &&& ok_str(f, "coalitionName"@)
    &&& ok_str(f, "crashReporterKey"@)
    &&& ok_str(f, "codeSigningID"@)
    &&& ok_str(f, "codeSigningTeamID"@)
    &&& ok_i64(f, "codeSigningFlags"@)
    &&& ok_i64(f, "codeSigningValidationCategory"@)
    &&& ok_i64(f, "codeSigningTrustLevel"@)
    &&& ok_obj(f, "instructionByteStream"@)
    &&& ibs_fields_ok(v_obj(f, "instructionByteStream"@))
    &&& ok_str(f, "sip"@)
    &&& ok_obj(f, "exception"@)
    &&& exception_fields_ok(v_obj(f, "exception"@))
    &&& ok_obj(f, "termination"@)
    &&& termination_fields_ok(v_obj(f, "termination"@))
    &&& ok_obj(f, "asi"@)
    &&& asi_fields_ok(v_obj(f, "asi"@))
    &&& ok_obj(f, "extMods"@)
    &&& ext_mods_fields_ok(v_obj(f, "extMods"@))
    &&& ok_opt_i64(f, "faultingThread"@)
    &&& ok_arr(f, "threads"@)
    &&& threads_ok(v_arr(f, "threads"@))
    &&& ok_arr(f, "usedImages"@)
    &&& images_ok(v_arr(f, "usedImages"@))
    &&& ok_obj(f, "sharedCache"@)
    &&& shared_cache_fields_ok(v_obj(f, "sharedCache"@))
    &&& ok_str(f, "vmSummary"@)
    &&& ok_obj(f, "legacyInfo"@)
    &&& legacy_fields_ok(v_obj(f, "legacyInfo"@))
    &&& ok_str(f, "logWritingSignature"@)
    &&& ok_obj(f, "trialInfo"@)
    &&& trial_fields_ok(v_obj(f, "trialInfo"@))
}

pub open spec fn body_fields_v(f: Seq<(String, JsonValue)>) -> BodyV {
    BodyV {
        uptime: v_i64(f, "uptime"@),
        proc_role: v_str(f, "procRole"@),
        version: v_i64(f, "version"@),
        user_id: v_i64(f, "userID"@),
        deploy_version: v_i64(f, "deployVersion"@),
        model_code: v_str(f, "modelCode"@),
        coalition_id: v_i64(f, "coalitionID"@),
        os_version: os_version_fields_v(v_obj(f, "osVersion"@)),
        capture_time: v_str(f, "captureTime"@),
        code_signing_monitor: v_i64(f, "codeSigningMonitor"@),
        incident: v_str(f, "incident"@),
        pid: v_i64(f, "pid"@),
        translated: v_bool(f, "translated"@),
        cpu_type: v_str(f, "cpuType"@),
        roots_installed: v_i64(f, "roots_installed"@),
        bug_type: v_str(f, "bug_type"@),
        proc_launch: v_str(f, "procLaunch"@),
        proc_start_abs_time: v_i64(f, "procStartAbsTime"@),
        proc_exit_abs_time: v_i64(f, "procExitAbsTime"@),
        proc_name: v_str(f, "procName"@),
        proc_path: v_str(f, "procPath"@),
        bundle_info: bundle_info_fields_v(v_obj(f, "bundleInfo"@)),
        store_info: store_info_fields_v(v_obj(f, "storeInfo"@)),
        parent_proc: v_str(f, "parentProc"@),
        parent_pid: v_i64(f, "parentPid"@),
        coalition_name: v_str(f, "coalitionName"@),
        crash_reporter_key: v_str(f, "crashReporterKey"@),
        code_signing_id: v_str(f, "codeSigningID"@),
        code_signing_team_id: v_str(f, "codeSigningTeamID"@),
        code_signing_flags: v_i64(f, "codeSigningFlags"@),
        code_signing_validation_category: v_i64(f, "codeSigningValidationCategory"@),
        code_signing_trust_level: v_i64(f, "codeSigningTrustLevel"@),
        instruction_byte_stream: ibs_fields_v(v_obj(f, "instructionByteStream"@)),
        sip: v_str(f, "sip"@),
        exception: exception_fields_v(v_obj(f, "exception"@)),
        termination: termination_fields_v(v_obj(f, "termination"@)),
        asi: asi_fields_v(v_obj(f, "asi"@)),
        ext_mods: ext_mods_fields_v(v_obj(f, "extMods"@)),
        faulting_thread: v_opt_i64(f, "faultingThread"@),
        threads: threads_v(v_arr(f, "threads"@)),
        used_images: images_v(v_arr(f, "usedImages"@)),
        shared_cache: shared_cache_fields_v(v_obj(f, "sharedCache"@)),
        vm_summary: v_str(f, "vmSummary"@),
        legacy_info: legacy_fields_v(v_obj(f, "legacyInfo"@)),
        log_writing_signature: v_str(f, "logWritingSignature"@),
        trial_info: trial_fields_v(v_obj(f, "trialInfo"@)),
    }
}

/// The body decodes exactly when the document is an object whose present
/// fields have the right types; absent fields default.
pub open spec fn body_ok(v: JsonValue) -> bool {
    v is Obj && body_fields_ok(v->fields@)
}

pub open spec fn body_v(v: JsonValue) -> BodyV {
    body_fields_v(v->fields@)
}

#[verifier::rlimit(100)]
#[verifier::spinoff_prover]
pub fn decode_body(v: &JsonValue) -> (r: Result<Body, ()>)
    ensures
        r is Ok <==> body_ok(*v),
        r matches Ok(b) ==> b@ == body_v(*v),
{
    let f = match v {
        JsonValue::Obj { fields } => fields,
        _ => {
            return Err(());
        },
    };
    let empty: Vec<(String, JsonValue)> = Vec::new();
    let empty_items: Vec<JsonValue> = Vec::new();
    let uptime = get_i64(f, "uptime")?;
    let proc_role = get_str(f, "procRole")?;
    let version = get_i64(f, "version")?;
    let user_id = get_i64(f, "userID")?;
    let deploy_version = get_i64(f, "deployVersion")?;
    let model_code = get_str(f, "modelCode")?;
    let coalition_id = get_i64(f, "coalitionID")?;
    let os_version = match get_obj(f, "osVersion")? {
        Some(g) => decode_os_version(g)?,
        None => decode_os_version(&empty)?,
    };
    let capture_time = get_str(f, "captureTime")?;
    let code_signing_monitor = get_i64(f, "codeSigningMonitor")?;
    let incident = get_str(f, "incident")?;
    let pid = get_i64(f, "pid")?;
    let translated = get_bool(f, "translated")?;
    let cpu_type = get_str(f, "cpuType")?;
    let roots_installed = get_i64(f, "roots_installed")?;
    let bug_type = get_str(f, "bug_type")?;
    let proc_launch = get_str(f, "procLaunch")?;
    let proc_start_abs_time = get_i64(f, "procStartAbsTime")?;
    let proc_exit_abs_time = get_i64(f, "procExitAbsTime")?;
    let proc_name = get_str(f, "procName")?;
    let proc_path = get_str(f, "procPath")?;
    let bundle_info = match get_obj(f, "bundleInfo")? {
        Some(g) => decode_bundle_info(g)?,
        None => decode_bundle_info(&empty)?,
    };
    let store_info = match get_obj(f, "storeInfo")? {
        Some(g) => decode_store_info(g)?,
        None => decode_store_info(&empty)?,
    };
    let parent_proc = get_str(f, "parentProc")?;
    let parent_pid = get_i64(f, "parentPid")?;
    let coalition_name = get_str(f, "coalitionName")?;
    let crash_reporter_key = get_str(f, "crashReporterKey")?;
    let code_signing_id = get_str(f, "codeSigningID")?;
    let code_signing_team_id = get_str(f, "codeSigningTeamID")?;
    let code_signing_flags = get_i64(f, "codeSigningFlags")?;
    let code_signing_validation_category = get_i64(f, "codeSigningValidationCategory")?;
    let code_signing_trust_level = get_i64(f, "codeSigningTrustLevel")?;
    let instruction_byte_stream = match get_obj(f, "instructionByteStream")? {
        Some(g) => decode_ibs(g)?,
        None => decode_ibs(&empty)?,
    };
    let sip = get_str(f, "sip")?;
    let exception = match get_obj(f, "exception")? {
        Some(g) => decode_exception(g)?,
        None => decode_exception(&empty)?,
    };
    let termination = match get_obj(f, "termination")? {
        Some(g) => decode_termination(g)?,
        None => decode_termination(&empty)?,
    };
    let asi = match get_obj(f, "asi")? {
        Some(g) => decode_asi(g)?,
        None => decode_asi(&empty)?,
    };
    let ext_mods = match get_obj(f, "extMods")? {
        Some(g) => decode_ext_mods(g)?,
        None => decode_ext_mods(&empty)?,
    };
    let faulting_thread = get_opt_i64(f, "faultingThread")?;
    let threads = match get_arr(f, "threads")? {
        Some(items) => decode_threads(items)?,
        None => decode_threads(&empty_items)?,
    };
    let used_images = match get_arr(f, "usedImages")? {
        Some(items) => decode_images(items)?,
        None => decode_images(&empty_items)?,
    };
    let shared_cache = match get_obj(f, "sharedCache")? {
        Some(g) => decode_shared_cache(g)?,
        None => decode_shared_cache(&empty)?,
    };
    let vm_summary = get_str(f, "vmSummary")?;
    let legacy_info = match get_obj(f, "legacyInfo")? {
        Some(g) => decode_legacy(g)?,
        None => decode_legacy(&empty)?,
    };
    let log_writing_signature = get_str(f, "logWritingSignature")?;
    let trial_info = match get_obj(f, "trialInfo")? {
        Some(g) => decode_trial(g)?,
        None => decode_trial(&empty)?,
    };
    proof {
        assert(threads@.map_values(|x: Thread| x@) =~= threads_v(v_arr(f@, "threads"@)));
        assert(used_images@.map_values(|x: UsedImage| x@) =~= images_v(v_arr(f@, "usedImages"@)));
    }
    Ok(
        Body {
            uptime,
            proc_role,
            version,
            user_id,
            deploy_version,
            model_code,
            coalition_id,
            os_version,
            capture_time,
            code_signing_monitor,
            incident,
            pid,
            translated,
            cpu_type,
            roots_installed,
            bug_type,
            proc_launch,
            proc_start_abs_time,
            proc_exit_abs_time,
            proc_name,
            proc_path,
            bundle_info,
            store_info,
            parent_proc,
            parent_pid,
            coalition_name,
            crash_reporter_key,
            code_signing_id,
            code_signing_team_id,
            code_signing_flags,
            code_signing_validation_category,
            code_signing_trust_level,
            instruction_byte_stream,
            sip,
            exception,
            termination,
            asi,
            ext_mods,
            faulting_thread,
            threads,
            used_images,
            shared_cache,
            vm_summary,
            legacy_info,
            log_writing_signature,
            trial_info,
        },
    )
}

} // verus!
