//! The GUI state machine and the values the GUI shows.
//!
//! The GUI commands (start, start with RVC models, stop, load a timbre
//! library) perform their work outside this crate and report what happened
//! as [`UiEvent`]s; [`ui_transition`] decides the next [`UiState`] and the
//! error message, if any, that the command returns to the front end.
use vstd::prelude::*;

verus! {

/// GUI state.
#[derive(Debug, Clone, Copy, PartialEq, Eq, Structural)]
pub enum UiState {
    /// Idle, no model loaded.
    Idle,
    /// Loading a model or a timbre library.
    LoadingModel,
    /// Ready to start.
    Ready,
    /// Voice conversion running.
    Running,
    /// An error occurred.
    Error,
}

/// What a GUI command reports.
#[derive(Debug)]
pub enum UiEvent {
    /// A pass-through start was requested; `running` tells whether the engine already runs.
    StartRequested { running: bool },
    /// A start with RVC models was requested.
    RvcStartRequested { running: bool },
    /// The RVC models finished loading, or failed with a message.
    ModelsLoaded { result: Result<(), String> },
    /// The engine was started; `running` tells whether it is running now.
    EngineStarted { running: bool },
    /// A stop was requested.
    StopRequested { running: bool },
    /// Loading a timbre library was requested.
    LibraryLoadRequested,
    /// The timbre library finished loading, or failed with a message.
    LibraryLoaded { result: Result<(), String> },
}

/// The next state, and the error message that the command returns (if any).
#[derive(Debug)]
pub struct UiTransition {
    pub state: UiState,
    pub error: Option<String>,
}

/// The next state after `event` in `state`, and the command's error message.
pub open spec fn ui_next(state: UiState, event: UiEvent) -> (UiState, Option<Seq<char>>) {
    match event {
        UiEvent::StartRequested { running } => if running {
            (state, Some("engine already running"@))
        } else {
            (UiState::Running, None)
        },
        UiEvent::RvcStartRequested { running } => if running {
            (state, Some("engine already running"@))
        } else {
            (UiState::LoadingModel, None)
        },
        UiEvent::ModelsLoaded { result } => match result {
            Ok(_) => (UiState::Running, None),
            Err(m) => (UiState::Error, Some(m@)),
        },
        UiEvent::EngineStarted { running } => if running {
            (state, None)
        } else {
            (UiState::Error, Some("engine failed to start"@))
        },
        UiEvent::StopRequested { running } => if running {
            (UiState::Ready, None)
        } else {
            (state, Some("engine not running"@))
        },
        UiEvent::LibraryLoadRequested => (UiState::LoadingModel, None),
        UiEvent::LibraryLoaded { result } => match result {
            Ok(_) => (UiState::Ready, None),
            Err(m) => (state, Some(m@)),
        },
    }
}

/// Decides the next GUI state after `event` in `state`.
pub fn ui_transition(state: UiState, event: UiEvent) -> (t: UiTransition)
    ensures
        t.state == ui_next(state, event).0,
        match ui_next(state, event).1 {
            Some(m) => t.error matches Some(e) && e@ == m,
            None => t.error is None,
        },
{
    match event {
        UiEvent::StartRequested { running } => if running {
            UiTransition { state, error: Some(String::from_str("engine already running")) }
        } else {
            UiTransition { state: UiState::Running, error: None }
        },
        UiEvent::RvcStartRequested { running } => if running {
            UiTransition { state, error: Some(String::from_str("engine already running")) }
        } else {
            UiTransition { state: UiState::LoadingModel, error: None }
        },
        UiEvent::ModelsLoaded { result } => match result {
            Ok(_) => UiTransition { state: UiState::Running, error: None },
            Err(m) => UiTransition { state: UiState::Error, error: Some(m) },
        },
        UiEvent::EngineStarted { running } => if running {
            UiTransition { state, error: None }
        } else {
            UiTransition { state: UiState::Error, error: Some(String::from_str("engine failed to start")) }
        },
        UiEvent::StopRequested { running } => if running {
            UiTransition { state: UiState::Ready, error: None }
        } else {
            UiTransition { state, error: Some(String::from_str("engine not running")) }
        },
        UiEvent::LibraryLoadRequested => UiTransition { state: UiState::LoadingModel, error: None },
        UiEvent::LibraryLoaded { result } => match result {
            Ok(_) => UiTransition { state: UiState::Ready, error: None },
            Err(m) => UiTransition { state, error: Some(m) },
        },
    }
}

/// An audio device as the GUI lists it.
#[derive(Debug)]
pub struct DeviceInfo {
    pub name: String,
    pub sample_rate: u32,
    pub channels: u16,
    pub is_default: bool,
}

impl DeviceInfo {
    /// Describes a device; it is the default when its name equals the
    /// default device's name (`None` when there is no default device).
    pub fn describe(name: &str, sample_rate: u32, channels: u16, default_name: Option<&str>) -> (d: Self)
        ensures
            d.name@ == name@,
            d.sample_rate == sample_rate,
            d.channels == channels,
            d.is_default == (default_name matches Some(n) && n@ == name@),
    {
        let own = String::from_str(name);
        let is_default = match default_name {
            Some(n) => String::from_str(n) == own,
            None => false,
        };
        DeviceInfo { name: own, sample_rate, channels, is_default }
    }
}

/// Describes each device listed as `(name, sample_rate, channels)`, in order,
/// marking those named like the default device.
pub fn describe_devices(devices: &[(String, u32, u16)], default_name: Option<&str>) -> (r: Vec<DeviceInfo>)
    ensures
        r@.len() == devices@.len(),
        forall|i: int| 0 <= i < devices@.len() ==> {
            &&& (#[trigger] r@[i]).name@ == devices@[i].0@
            &&& r@[i].sample_rate == devices@[i].1
            &&& r@[i].channels == devices@[i].2
            &&& r@[i].is_default == (default_name matches Some(n) && n@ == devices@[i].0@)
        },
{
    let mut r: Vec<DeviceInfo> = Vec::new();
    let mut i: usize = 0;
    while i < devices.len()
        invariant
            i <= devices@.len(),
            r@.len() == i,
            forall|k: int| 0 <= k < i ==> {
                &&& (#[trigger] r@[k]).name@ == devices@[k].0@
                &&& r@[k].sample_rate == devices@[k].1
                &&& r@[k].channels == devices@[k].2
                &&& r@[k].is_default == (default_name matches Some(n) && n@ == devices@[k].0@)
            },
        decreases devices@.len() - i,
    {
        let d = &devices[i];
        r.push(DeviceInfo::describe(d.0.as_str(), d.1, d.2, default_name));
        i = i + 1;
    }
    r
}

/// Paths and parameters of the RVC models chosen in the GUI.
#[derive(Debug)]
pub struct RvcModelPaths {
    /// ContentVec embedder model (.onnx).
    pub embedder: String,
    /// RMVPE F0 model (.onnx).
    pub f0_model: String,
    /// RVC generator model (.onnx).
    pub rvc_model: String,
    /// Output sample rate of the RVC model (usually 48000).
    pub rvc_sample_rate: u32,
    /// Output channels of ContentVec (usually 256 or 768).
    pub embedder_channels: i64,
}


/// A refused request (start while running, stop while stopped) leaves the
/// state unchanged and answers with an error; an accepted stop always ends in `Ready`.
pub proof fn lemma_refused_requests_keep_state(state: UiState)
    ensures
        ui_next(state, UiEvent::StartRequested { running: true }) == (state, Some("engine already running"@)),
        ui_next(state, UiEvent::RvcStartRequested { running: true }) == (state, Some("engine already running"@)),
        ui_next(state, UiEvent::StopRequested { running: false }) == (state, Some("engine not running"@)),
        ui_next(state, UiEvent::StopRequested { running: true }) == (UiState::Ready, None::<Seq<char>>),
{
}

/// A successful engine start changes nothing: whatever the state, it stays
/// and no error is returned. So a pass-through start ends in `Running`, and a
/// start with models goes `LoadingModel`, then `Running` once the models load,
/// and stays `Running` once the engine runs; a failed start ends in `Error`.
pub proof fn lemma_successful_start_keeps_running(state: UiState)
    ensures
        ui_next(state, UiEvent::EngineStarted { running: true }) == (state, None::<Seq<char>>),
        ({
            let requested = ui_next(state, UiEvent::StartRequested { running: false });
            &&& requested == (UiState::Running, None::<Seq<char>>)
            &&& ui_next(requested.0, UiEvent::EngineStarted { running: true }) == (
                UiState::Running,
                None::<Seq<char>>,
            )
        }),
        ({
            let requested = ui_next(state, UiEvent::RvcStartRequested { running: false });
            let loaded = ui_next(requested.0, UiEvent::ModelsLoaded { result: Ok(()) });
            &&& requested == (UiState::LoadingModel, None::<Seq<char>>)
            &&& loaded == (UiState::Running, None::<Seq<char>>)
            &&& ui_next(loaded.0, UiEvent::EngineStarted { running: true }) == (UiState::Running, None::<Seq<char>>)
        }),
        ui_next(state, UiEvent::EngineStarted { running: false }).0 == UiState::Error,
{
}

} // verus!
