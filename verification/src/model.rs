use vstd::prelude::*;

verus! {

/// Report metadata, the first of the two documents. Every field defaults
/// when absent: the schema is not contractually stable.
pub struct Header {
    pub app_name: String,
    pub timestamp: String,
    pub app_version: String,
    pub slice_uuid: String,
    pub build_version: String,
    pub platform: i64,
    pub bundle_id: String,
    pub share_with_app_devs: i64,
    pub is_first_party: i64,
    pub bug_type: String,
    pub os_version: String,
    pub roots_installed: i64,
    pub name: String,
    pub incident_id: String,
}

pub struct HeaderV {
    pub app_name: Seq<char>,
    pub timestamp: Seq<char>,
    pub app_version: Seq<char>,
    pub slice_uuid: Seq<char>,
    pub build_version: Seq<char>,
    pub platform: i64,
    pub bundle_id: Seq<char>,
    pub share_with_app_devs: i64,
    pub is_first_party: i64,
    pub bug_type: Seq<char>,
    pub os_version: Seq<char>,
    pub roots_installed: i64,
    pub name: Seq<char>,
    pub incident_id: Seq<char>,
}

impl View for Header {
    type V = HeaderV;

    open spec fn view(&self) -> HeaderV {
        HeaderV {
            app_name: self.app_name@,
            timestamp: self.timestamp@,
            app_version: self.app_version@,
            slice_uuid: self.slice_uuid@,
            build_version: self.build_version@,
            platform: self.platform,
            bundle_id: self.bundle_id@,
            share_with_app_devs: self.share_with_app_devs,
            is_first_party: self.is_first_party,
            bug_type: self.bug_type@,
            os_version: self.os_version@,
            roots_installed: self.roots_installed,
            name: self.name@,
            incident_id: self.incident_id@,
        }
    }
}

pub struct OsVersion {
    pub train: String,
    pub build: String,
    pub release_type: String,
}

pub struct OsVersionV {
    pub train: Seq<char>,
    pub build: Seq<char>,
    pub release_type: Seq<char>,
}

impl View for OsVersion {
    type V = OsVersionV;

    open spec fn view(&self) -> OsVersionV {
        OsVersionV { train: self.train@, build: self.build@, release_type: self.release_type@ }
    }
}

pub struct BundleInfo {
    pub cfbundle_short_version_string: String,
    pub cfbundle_version: String,
    pub cfbundle_identifier: String,
}

pub struct BundleInfoV {
    pub cfbundle_short_version_string: Seq<char>,
    pub cfbundle_version: Seq<char>,
    pub cfbundle_identifier: Seq<char>,
}

impl View for BundleInfo {
    type V = BundleInfoV;

    open spec fn view(&self) -> BundleInfoV {
        BundleInfoV {
            cfbundle_short_version_string: self.cfbundle_short_version_string@,
            cfbundle_version: self.cfbundle_version@,
            cfbundle_identifier: self.cfbundle_identifier@,
        }
    }
}

pub struct StoreInfo {
    pub device_identifier_for_vendor: String,
    pub third_party: bool,
}

pub struct StoreInfoV {
    pub device_identifier_for_vendor: Seq<char>,
    pub third_party: bool,
}

impl View for StoreInfo {
    type V = StoreInfoV;

    open spec fn view(&self) -> StoreInfoV {
        StoreInfoV {
            device_identifier_for_vendor: self.device_identifier_for_vendor@,
            third_party: self.third_party,
        }
    }
}

pub struct InstructionByteStream {
    pub before_pc: String,
    pub at_pc: String,
}

pub struct InstructionByteStreamV {
    pub before_pc: Seq<char>,
    pub at_pc: Seq<char>,
}

impl View for InstructionByteStream {
    type V = InstructionByteStreamV;

    open spec fn view(&self) -> InstructionByteStreamV {
        InstructionByteStreamV { before_pc: self.before_pc@, at_pc: self.at_pc@ }
    }
}

pub struct Exception {
    pub codes: String,
    pub raw_codes: Vec<i64>,
    pub type_field: String,
    pub signal: String,
}

pub struct ExceptionV {
    pub codes: Seq<char>,
    pub raw_codes: Seq<i64>,
    pub type_field: Seq<char>,
    pub signal: Seq<char>,
}

impl View for Exception {
    type V = ExceptionV;

    open spec fn view(&self) -> ExceptionV {
        ExceptionV {
            codes: self.codes@,
            raw_codes: self.raw_codes@,
            type_field: self.type_field@,
            signal: self.signal@,
        }
    }
}

pub struct Termination {
    pub flags: i64,
    pub code: i64,
    pub namespace: String,
    pub indicator: String,
    pub by_proc: String,
    pub by_pid: i64,
}

pub struct TerminationV {
    pub flags: i64,
    pub code: i64,
    pub namespace: Seq<char>,
    pub indicator: Seq<char>,
    pub by_proc: Seq<char>,
    pub by_pid: i64,
}

impl View for Termination {
    type V = TerminationV;

    open spec fn view(&self) -> TerminationV {
        TerminationV {
            flags: self.flags,
            code: self.code,
            namespace: self.namespace@,
            indicator: self.indicator@,
            by_proc: self.by_proc@,
            by_pid: self.by_pid,
        }
    }
}

pub struct Asi {
    pub libsystem_c_dylib: Vec<String>,
}

pub struct AsiV {
    pub libsystem_c_dylib: Seq<Seq<char>>,
}

impl View for Asi {
    type V = AsiV;

    open spec fn view(&self) -> AsiV {
        AsiV { libsystem_c_dylib: self.libsystem_c_dylib@.map_values(|s: String| s@) }
    }
}

pub struct ExtMod {
    pub thread_create: i64,
    pub thread_set_state: i64,
    pub task_for_pid: i64,
}

pub struct ExtModV {
    pub thread_create: i64,
    pub thread_set_state: i64,
    pub task_for_pid: i64,
}

impl View for ExtMod {
    type V = ExtModV;

    open spec fn view(&self) -> ExtModV {
        ExtModV {
            thread_create: self.thread_create,
            thread_set_state: self.thread_set_state,
            task_for_pid: self.task_for_pid,
        }
    }
}

pub struct ExtMods {
    pub caller: ExtMod,
    pub system: ExtMod,
    pub targeted: ExtMod,
    pub warnings: i64,
}

pub struct ExtModsV {
    pub caller: ExtModV,
    pub system: ExtModV,
    pub targeted: ExtModV,
    pub warnings: i64,
}

impl View for ExtMods {
    type V = ExtModsV;

    open spec fn view(&self) -> ExtModsV {
        ExtModsV {
            caller: self.caller@,
            system: self.system@,
            targeted: self.targeted@,
            warnings: self.warnings,
        }
    }
}

/// One stack frame of a thread, leaf-first in the frame list. The raw
/// `image_index` refers into the body's `used_images`; the parser does not
/// check it, consumers must.
pub struct Frame {
    pub image_offset: i64,
    pub symbol: Option<String>,
    pub symbol_location: Option<i64>,
    pub image_index: i64,
}

pub struct FrameV {
    pub image_offset: i64,
    pub symbol: Option<Seq<char>>,
    pub symbol_location: Option<i64>,
    pub image_index: i64,
}

impl View for Frame {
    type V = FrameV;

    open spec fn view(&self) -> FrameV {
        FrameV {
            image_offset: self.image_offset,
            symbol: match self.symbol {
                Some(s) => Some(s@),
                None => None,
            },
            symbol_location: self.symbol_location,
            image_index: self.image_index,
        }
    }
}

/// One thread of the crashed process. The raw register-state mapping is
/// checked to be an object during decoding but is not retained: nothing
/// downstream reads it.
pub struct Thread {
    pub id: i64,
    pub triggered: Option<bool>,
    pub name: Option<String>,
    pub queue: Option<String>,
    pub frames: Vec<Frame>,
}

pub struct ThreadV {
    pub id: i64,
    pub triggered: Option<bool>,
    pub name: Option<Seq<char>>,
    pub queue: Option<Seq<char>>,
    pub frames: Seq<FrameV>,
}

impl View for Thread {
    type V = ThreadV;

    open spec fn view(&self) -> ThreadV {
        ThreadV {
            id: self.id,
            triggered: self.triggered,
            name: match self.name {
                Some(s) => Some(s@),
                None => None,
            },
            queue: match self.queue {
                Some(s) => Some(s@),
                None => None,
            },
            frames: self.frames@.map_values(|f: Frame| f@),
        }
    }
}

/// A binary image the crashed process had loaded. Its `uuid` is compared
/// case-insensitively everywhere.
pub struct UsedImage {
    pub source: String,
    pub arch: Option<String>,
    pub base: i64,
    pub cfbundle_short_version_string: Option<String>,
    pub cfbundle_identifier: Option<String>,
    pub size: i64,
    pub uuid: String,
    pub path: Option<String>,
    pub name: Option<String>,
    pub cfbundle_version: Option<String>,
}

pub struct UsedImageV {
    pub source: Seq<char>,
    pub arch: Option<Seq<char>>,
    pub base: i64,
    pub cfbundle_short_version_string: Option<Seq<char>>,
    pub cfbundle_identifier: Option<Seq<char>>,
    pub size: i64,
    pub uuid: Seq<char>,
    pub path: Option<Seq<char>>,
    pub name: Option<Seq<char>>,
    pub cfbundle_version: Option<Seq<char>>,
}

pub open spec fn view_opt_str(s: Option<String>) -> Option<Seq<char>> {
    match s {
        Some(t) => Some(t@),
        None => None,
    }
}

impl View for UsedImage {
    type V = UsedImageV;

    open spec fn view(&self) -> UsedImageV {
        UsedImageV {
            source: self.source@,
            arch: view_opt_str(self.arch),
            base: self.base,
            cfbundle_short_version_string: view_opt_str(self.cfbundle_short_version_string),
            cfbundle_identifier: view_opt_str(self.cfbundle_identifier),
            size: self.size,
            uuid: self.uuid@,
            path: view_opt_str(self.path),
            name: view_opt_str(self.name),
            cfbundle_version: view_opt_str(self.cfbundle_version),
        }
    }
}

pub struct SharedCache {
    pub base: i64,
    pub size: i64,
    pub uuid: String,
}

pub struct SharedCacheV {
    pub base: i64,
    pub size: i64,
    pub uuid: Seq<char>,
}

impl View for SharedCache {
    type V = SharedCacheV;

    open spec fn view(&self) -> SharedCacheV {
        SharedCacheV { base: self.base, size: self.size, uuid: self.uuid@ }
    }
}

pub struct ThreadTriggered {
    pub name: String,
    pub queue: String,
}

pub struct ThreadTriggeredV {
    pub name: Seq<char>,
    pub queue: Seq<char>,
}

impl View for ThreadTriggered {
    type V = ThreadTriggeredV;

    open spec fn view(&self) -> ThreadTriggeredV {
        ThreadTriggeredV { name: self.name@, queue: self.queue@ }
    }
}

pub struct LegacyInfo {
    pub thread_triggered: ThreadTriggered,
}

pub struct LegacyInfoV {
    pub thread_triggered: ThreadTriggeredV,
}

impl View for LegacyInfo {
    type V = LegacyInfoV;

    open spec fn view(&self) -> LegacyInfoV {
        LegacyInfoV { thread_triggered: self.thread_triggered@ }
    }
}

/// One rollout record. The factor-pack mapping is checked to be an object
/// during decoding but is not retained: nothing downstream reads it.
pub struct Rollout {
    pub rollout_id: String,
    pub deployment_id: i64,
}

pub struct RolloutV {
    pub rollout_id: Seq<char>,
    pub deployment_id: i64,
}

impl View for Rollout {
    type V = RolloutV;

    open spec fn view(&self) -> RolloutV {
        RolloutV { rollout_id: self.rollout_id@, deployment_id: self.deployment_id }
    }
}

/// Trial data. The experiment entries are checked to be an array during
/// decoding but are not retained: nothing downstream reads them.
pub struct TrialInfo {
    pub rollouts: Vec<Rollout>,
}

pub struct TrialInfoV {
    pub rollouts: Seq<RolloutV>,
}

impl View for TrialInfo {
    type V = TrialInfoV;

    open spec fn view(&self) -> TrialInfoV {
        TrialInfoV { rollouts: self.rollouts@.map_values(|r: Rollout| r@) }
    }
}

/// The bulk of the diagnostic data, the second of the two documents.
pub struct Body {
    pub uptime: i64,
    pub proc_role: String,
    pub version: i64,
    pub user_id: i64,
    pub deploy_version: i64,
    pub model_code: String,
    pub coalition_id: i64,
    pub os_version: OsVersion,
    pub capture_time: String,
    pub code_signing_monitor: i64,
    pub incident: String,
    pub pid: i64,
    pub translated: bool,
    pub cpu_type: String,
    pub roots_installed: i64,
    pub bug_type: String,
    pub proc_launch: String,
    pub proc_start_abs_time: i64,
    pub proc_exit_abs_time: i64,
    pub proc_name: String,
    pub proc_path: String,
    pub bundle_info: BundleInfo,
    pub store_info: StoreInfo,
    pub parent_proc: String,
    pub parent_pid: i64,
    pub coalition_name: String,
    pub crash_reporter_key: String,
    pub code_signing_id: String,
    pub code_signing_team_id: String,
    pub code_signing_flags: i64,
    pub code_signing_validation_category: i64,
    pub code_signing_trust_level: i64,
    pub instruction_byte_stream: InstructionByteStream,
    pub sip: String,
    pub exception: Exception,
    pub termination: Termination,
    pub asi: Asi,
    pub ext_mods: ExtMods,
    pub faulting_thread: Option<i64>,
    pub threads: Vec<Thread>,
    pub used_images: Vec<UsedImage>,
    pub shared_cache: SharedCache,
    pub vm_summary: String,
    pub legacy_info: LegacyInfo,
    pub log_writing_signature: String,
    pub trial_info: TrialInfo,
}

pub struct BodyV {
    pub uptime: i64,
    pub proc_role: Seq<char>,
    pub version: i64,
    pub user_id: i64,
    pub deploy_version: i64,
    pub model_code: Seq<char>,
    pub coalition_id: i64,
    pub os_version: OsVersionV,
    pub capture_time: Seq<char>,
    pub code_signing_monitor: i64,
    pub incident: Seq<char>,
    pub pid: i64,
    pub translated: bool,
    pub cpu_type: Seq<char>,
    pub roots_installed: i64,
    pub bug_type: Seq<char>,
    pub proc_launch: Seq<char>,
    pub proc_start_abs_time: i64,
    pub proc_exit_abs_time: i64,
    pub proc_name: Seq<char>,
    pub proc_path: Seq<char>,
    pub bundle_info: BundleInfoV,
    pub store_info: StoreInfoV,
    pub parent_proc: Seq<char>,
    pub parent_pid: i64,
    pub coalition_name: Seq<char>,
    pub crash_reporter_key: Seq<char>,
    pub code_signing_id: Seq<char>,
    pub code_signing_team_id: Seq<char>,
    pub code_signing_flags: i64,
    pub code_signing_validation_category: i64,
    pub code_signing_trust_level: i64,
    pub instruction_byte_stream: InstructionByteStreamV,
    pub sip: Seq<char>,
    pub exception: ExceptionV,
    pub termination: TerminationV,
    pub asi: AsiV,
    pub ext_mods: ExtModsV,
    pub faulting_thread: Option<i64>,
    pub threads: Seq<ThreadV>,
    pub used_images: Seq<UsedImageV>,
    pub shared_cache: SharedCacheV,
    pub vm_summary: Seq<char>,
    pub legacy_info: LegacyInfoV,
    pub log_writing_signature: Seq<char>,
    pub trial_info: TrialInfoV,
}

impl View for Body {
    type V = BodyV;

    open spec fn view(&self) -> BodyV {
        BodyV {
            uptime: self.uptime,
            proc_role: self.proc_role@,
            version: self.version,
            user_id: self.user_id,
            deploy_version: self.deploy_version,
            model_code: self.model_code@,
            coalition_id: self.coalition_id,
            os_version: self.os_version@,
            capture_time: self.capture_time@,
            code_signing_monitor: self.code_signing_monitor,
            incident: self.incident@,
            pid: self.pid,
            translated: self.translated,
            cpu_type: self.cpu_type@,
            roots_installed: self.roots_installed,
            bug_type: self.bug_type@,
            proc_launch: self.proc_launch@,
            proc_start_abs_time: self.proc_start_abs_time,
            proc_exit_abs_time: self.proc_exit_abs_time,
            proc_name: self.proc_name@,
            proc_path: self.proc_path@,
            bundle_info: self.bundle_info@,
            store_info: self.store_info@,
            parent_proc: self.parent_proc@,
            parent_pid: self.parent_pid,
            coalition_name: self.coalition_name@,
            crash_reporter_key: self.crash_reporter_key@,
            code_signing_id: self.code_signing_id@,
            code_signing_team_id: self.code_signing_team_id@,
            code_signing_flags: self.code_signing_flags,
            code_signing_validation_category: self.code_signing_validation_category,
            code_signing_trust_level: self.code_signing_trust_level,
            instruction_byte_stream: self.instruction_byte_stream@,
            sip: self.sip@,
            exception: self.exception@,
            termination: self.termination@,
            asi: self.asi@,
            ext_mods: self.ext_mods@,
            faulting_thread: self.faulting_thread,
            threads: self.threads@.map_values(|t: Thread| t@),
            used_images: self.used_images@.map_values(|im: UsedImage| im@),
            shared_cache: self.shared_cache@,
            vm_summary: self.vm_summary@,
            legacy_info: self.legacy_info@,
            log_writing_signature: self.log_writing_signature@,
            trial_info: self.trial_info@,
        }
    }
}

/// A whole crash report: the two documents of the source bytes.
pub struct IPSFile {
    pub header: Header,
    pub body: Body,
}

pub struct IPSFileV {
    pub header: HeaderV,
    pub body: BodyV,
}

impl View for IPSFile {
    type V = IPSFileV;

    open spec fn view(&self) -> IPSFileV {
        IPSFileV { header: self.header@, body: self.body@ }
    }
}

} // verus!
