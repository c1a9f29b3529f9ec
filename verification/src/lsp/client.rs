//! A client of the Dart analysis server: its settings, and the calls that
//! a program makes to it. The client does not talk to a server yet: every
//! call succeeds at once.

use crate::error::AnalyzerError;
use crate::json::{json_object, json_view, members_of, Json};
use vstd::prelude::*;

verus! {

/// The platforms whose usual places of the Dart SDK are known.
#[derive(Debug, Clone, Copy, PartialEq, Eq, Structural)]
pub enum Platform {
    Windows,
    MacOs,
    /// Linux and the other Unix systems.
    Unix,
}

/// The settings with which the analysis server is started.
#[derive(Debug)]
pub struct DartAnalysisServerConfig {
    /// The directory of the Dart SDK.
    pub dart_sdk_path: String,
    /// The snapshot of the analysis server.
    pub analysis_server_snapshot: String,
    /// More arguments for the virtual machine.
    pub vm_args: Vec<String>,
    /// Whether the server's messages are shown.
    pub verbose: bool,
}

/// Where the Dart SDK usually is on a platform.
pub open spec fn usual_sdk_path(platform: Platform) -> Seq<char> {
    match platform {
        Platform::Windows => "C:\\tools\\dart-sdk"@,
        Platform::MacOs => "/usr/local/opt/dart"@,
        Platform::Unix => "/usr/lib/dart"@,
    }
}

/// Where the snapshot of the analysis server usually is on a platform.
pub open spec fn usual_snapshot_path(platform: Platform) -> Seq<char> {
    match platform {
        Platform::Windows => "C:\\tools\\dart-sdk\\bin\\snapshots\\analysis_server.dart.snapshot"@,
        Platform::MacOs => "/usr/local/opt/dart/libexec/bin/snapshots/analysis_server.dart.snapshot"@,
        Platform::Unix => "/usr/lib/dart/bin/snapshots/analysis_server.dart.snapshot"@,
    }
}

impl DartAnalysisServerConfig {
    /// The usual settings on `platform`: no more arguments, and quiet.
    pub fn for_platform(platform: Platform) -> (r: Self)
        ensures
            r.dart_sdk_path@ == usual_sdk_path(platform),
            r.analysis_server_snapshot@ == usual_snapshot_path(platform),
            r.vm_args@.len() == 0,
            !r.verbose,
    {
        let (sdk, snapshot) = match platform {
            Platform::Windows => (
                "C:\\tools\\dart-sdk",
                "C:\\tools\\dart-sdk\\bin\\snapshots\\analysis_server.dart.snapshot",
            ),
            Platform::MacOs => (
                "/usr/local/opt/dart",
                "/usr/local/opt/dart/libexec/bin/snapshots/analysis_server.dart.snapshot",
            ),
            Platform::Unix => (
                "/usr/lib/dart",
                "/usr/lib/dart/bin/snapshots/analysis_server.dart.snapshot",
            ),
        };
        DartAnalysisServerConfig {
            dart_sdk_path: sdk.to_owned(),
            analysis_server_snapshot: snapshot.to_owned(),
            vm_args: Vec::new(),
            verbose: false,
        }
    }
}

impl Default for DartAnalysisServerConfig {
    /// The usual settings on Linux and the other Unix systems; those of
    /// another platform are had from `for_platform`.
    fn default() -> (r: Self)
        ensures
            r.dart_sdk_path@ == usual_sdk_path(Platform::Unix),
            r.analysis_server_snapshot@ == usual_snapshot_path(Platform::Unix),
            r.vm_args@.len() == 0,
            !r.verbose,
    {
        DartAnalysisServerConfig::for_platform(Platform::Unix)
    }
}

/// A client of the analysis server.
pub struct DartAnalysisServerClient {
    pub config: DartAnalysisServerConfig,
}

impl DartAnalysisServerClient {
    /// A client with the given settings.
    pub fn new(config: DartAnalysisServerConfig) -> (r: Result<Self, AnalyzerError>)
        ensures
            r matches Ok(client) && client.config == config,
    {
        Ok(DartAnalysisServerClient { config })
    }

    /// Starts the server. Nothing is started yet: the call succeeds and
    /// leaves the client as it is.
    pub fn start(&mut self) -> (r: Result<(), AnalyzerError>)
        ensures
            r is Ok,
            *final(self) == *old(self),
    {
        Ok(())
    }

    /// Sends a request and returns the answer. Nothing is sent yet: the
    /// answer is the empty object.
    pub fn send_request(&self, method: &str, params: serde_json::Value) -> (r: Result<
        serde_json::Value,
        AnalyzerError,
    >)
        ensures
            r matches Ok(answer) && json_view(answer) == Json::Object(Map::empty()),
    {
        let entries: Vec<(String, serde_json::Value)> = Vec::new();
        assert(members_of(entries@) =~= Map::<Seq<char>, Json>::empty());
        Ok(json_object(entries))
    }

    /// Sends a notification. Nothing is sent yet: the call succeeds.
    pub fn send_notification(&self, method: &str, params: serde_json::Value) -> (r: Result<
        (),
        AnalyzerError,
    >)
        ensures
            r is Ok,
    {
        Ok(())
    }

    /// Shuts the server down. Nothing runs yet: the call succeeds and
    /// leaves the client as it is.
    pub fn shutdown(&mut self) -> (r: Result<(), AnalyzerError>)
        ensures
            r is Ok,
            *final(self) == *old(self),
    {
        Ok(())
    }
}

} // verus!
