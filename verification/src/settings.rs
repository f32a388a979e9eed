//! Command line options, server and connection settings, game modes, maps
//! and user settings, and what the game starts with from them.

use vstd::prelude::*;
use crate::ability::ControlAction;
use crate::network::DEFAULT_PORT;

verus! {

/// Whether `s` reads the same as the literal `name`.
pub fn reads_as(s: &str, name: &str) -> (b: bool)
    ensures
        b == (s@ == name@),
{
    let a = s.to_owned();
    let b = name.to_owned();
    a == b
}

/// Game modes a server can run.
#[derive(Clone, Copy, Debug, PartialEq, Eq, Hash, Structural)]
pub enum GameMode {
    Disabled,
    Deathmatch,
}

impl GameMode {
    /// Number of player slots of the mode.
    pub fn slots_count(self) -> (n: u8)
        ensures
            n == 10,
    {
        match self {
            GameMode::Disabled | GameMode::Deathmatch => 10,
        }
    }

    /// The mode's name.
    pub fn name(self) -> (s: &'static str)
        ensures
            s@ == match self {
                GameMode::Disabled => "Disabled"@,
                GameMode::Deathmatch => "Deathmatch"@,
            },
    {
        match self {
            GameMode::Disabled => "Disabled",
            GameMode::Deathmatch => "Deathmatch",
        }
    }

    /// The mode whose name is `s`, if there is one.
    pub fn parse(s: &str) -> (m: Option<GameMode>)
        ensures
            m == if s@ == "Disabled"@ {
                Some(GameMode::Disabled)
            } else if s@ == "Deathmatch"@ {
                Some(GameMode::Deathmatch)
            } else {
                None
            },
    {
        if reads_as(s, "Disabled") {
            Some(GameMode::Disabled)
        } else if reads_as(s, "Deathmatch") {
            Some(GameMode::Deathmatch)
        } else {
            None
        }
    }

    /// Every mode, in declaration order.
    pub fn all() -> (v: Vec<GameMode>)
        ensures
            v@ == seq![GameMode::Disabled, GameMode::Deathmatch],
    {
        vec![GameMode::Disabled, GameMode::Deathmatch]
    }
}

/// Maps a server can run.
#[derive(Clone, Copy, Debug, PartialEq, Eq, Hash, Structural)]
pub enum GameMap {
    SkyRoof,
}

impl GameMap {
    /// The map's name.
    pub fn name(self) -> (s: &'static str)
        ensures
            s@ == "SkyRoof"@,
    {
        match self {
            GameMap::SkyRoof => "SkyRoof",
        }
    }

    /// The map whose name is `s`, if there is one.
    pub fn parse(s: &str) -> (m: Option<GameMap>)
        ensures
            m == if s@ == "SkyRoof"@ {
                Some(GameMap::SkyRoof)
            } else {
                None
            },
    {
        if reads_as(s, "SkyRoof") {
            Some(GameMap::SkyRoof)
        } else {
            None
        }
    }

    /// Path of the map's scene asset.
    pub fn asset_path(self) -> (s: &'static str)
        ensures
            s@ == "maps/sky_roof.glb#Scene0"@,
    {
        match self {
            GameMap::SkyRoof => "maps/sky_roof.glb#Scene0",
        }
    }

    /// Every map, in declaration order.
    pub fn all() -> (v: Vec<GameMap>)
        ensures
            v@ == seq![GameMap::SkyRoof],
    {
        vec![GameMap::SkyRoof]
    }
}

/// Settings of a hosted game.
#[derive(Clone, Debug, PartialEq, Eq)]
pub struct ServerSettings {
    /// Server name that other players see.
    pub server_name: String,
    /// IP address to bind.
    pub ip: String,
    /// Port to use.
    pub port: u16,
    /// Game mode.
    pub game_mode: GameMode,
    /// Game map.
    pub map: GameMap,
    /// Choose heroes randomly.
    pub random_heroes: bool,
}

impl ServerSettings {
    /// A game called "My game" on 127.0.0.1 and the default port, running a
    /// deathmatch on the sky roof, with heroes chosen by the players.
    pub fn new() -> (s: ServerSettings)
        ensures
            s.server_name@ == "My game"@,
            s.ip@ == "127.0.0.1"@,
            s.port == DEFAULT_PORT,
            s.game_mode == GameMode::Deathmatch,
            s.map == GameMap::SkyRoof,
            !s.random_heroes,
    {
        ServerSettings {
            server_name: "My game".to_owned(),
            ip: "127.0.0.1".to_owned(),
            port: DEFAULT_PORT,
            game_mode: GameMode::Deathmatch,
            map: GameMap::SkyRoof,
            random_heroes: false,
        }
    }

    /// Whether heroes are chosen randomly for the players.
    pub fn random_heroes(&self) -> (b: bool)
        ensures
            b == self.random_heroes,
    {
        self.random_heroes
    }
}

/// Where a client connects to.
#[derive(Clone, Debug, PartialEq, Eq)]
pub struct ConnectionSettings {
    /// Server IP address.
    pub ip: String,
    /// Server port.
    pub port: u16,
}

impl ConnectionSettings {
    /// 127.0.0.1 on the default port.
    pub fn new() -> (s: ConnectionSettings)
        ensures
            s.ip@ == "127.0.0.1"@,
            s.port == DEFAULT_PORT,
    {
        ConnectionSettings { ip: "127.0.0.1".to_owned(), port: DEFAULT_PORT }
    }
}

/// What the game was asked to do on the command line.
#[derive(Clone, Debug, PartialEq, Eq)]
pub enum SubCommand {
    /// Connect to a server.
    Connect(ConnectionSettings),
    /// Host a game.
    Host(ServerSettings),
}

/// Command line options.
#[derive(Clone, Debug, PartialEq, Eq)]
pub struct Opts {
    pub subcommand: Option<SubCommand>,
}

/// Top-level states of the game.
#[derive(Clone, Copy, Debug, PartialEq, Eq, Hash, Structural)]
pub enum AppState {
    Menu,
    Lobby,
    InGame,
}

/// The state the game starts in: in game when a subcommand was given, in
/// the menu otherwise.
pub fn initial_app_state(opts: &Opts) -> (s: AppState)
    ensures
        s == if opts.subcommand is Some {
            AppState::InGame
        } else {
            AppState::Menu
        },
{
    match opts.subcommand {
        Some(_) => AppState::InGame,
        None => AppState::Menu,
    }
}

/// The server settings the game starts with: those of the host subcommand,
/// the defaults otherwise.
pub fn server_settings(opts: &Opts) -> (s: ServerSettings)
    ensures
        match opts.subcommand {
            Some(SubCommand::Host(given)) => s == given,
            _ => {
                &&& s.server_name@ == "My game"@
                &&& s.ip@ == "127.0.0.1"@
                &&& s.port == DEFAULT_PORT
                &&& s.game_mode == GameMode::Deathmatch
                &&& s.map == GameMap::SkyRoof
                &&& !s.random_heroes
            },
        },
{
    match &opts.subcommand {
        Some(SubCommand::Host(given)) => ServerSettings {
            server_name: given.server_name.clone(),
            ip: given.ip.clone(),
            port: given.port,
            game_mode: given.game_mode,
            map: given.map,
            random_heroes: given.random_heroes,
        },
        _ => ServerSettings::new(),
    }
}

/// The connection settings the game starts with: those of the connect
/// subcommand, the defaults otherwise.
pub fn connection_settings(opts: &Opts) -> (s: ConnectionSettings)
    ensures
        match opts.subcommand {
            Some(SubCommand::Connect(given)) => s == given,
            _ => s.ip@ == "127.0.0.1"@ && s.port == DEFAULT_PORT,
        },
{
    match &opts.subcommand {
        Some(SubCommand::Connect(given)) => ConnectionSettings { ip: given.ip.clone(), port: given.port },
        _ => ConnectionSettings::new(),
    }
}

/// Video settings.
#[derive(Clone, Copy, Debug, PartialEq, Eq, Structural)]
pub struct VideoSettings {
    /// Samples of multisample anti-aliasing.
    pub msaa: u32,
    /// Show performance statistics.
    pub perf_stats: bool,
}

impl VideoSettings {
    /// One sample, no statistics.
    pub fn new() -> (s: VideoSettings)
        ensures
            s == (VideoSettings { msaa: 1, perf_stats: false }),
    {
        VideoSettings { msaa: 1, perf_stats: false }
    }
}

/// The anti-aliasing samples to set: those of the settings, whenever
/// settings were applied or first loaded.
pub fn msaa_to_apply(video: VideoSettings, applied: bool, loaded: bool) -> (samples: Option<u32>)
    ensures
        samples == if applied || loaded {
            Some(video.msaa)
        } else {
            None
        },
{
    if applied || loaded {
        Some(video.msaa)
    } else {
        None
    }
}

/// Keys and buttons that the default controls use.
#[derive(Clone, Copy, Debug, PartialEq, Eq, Hash, Structural)]
pub enum InputButton {
    W,
    S,
    A,
    D,
    Space,
    MouseLeft,
    Q,
    E,
    LShift,
    R,
}

/// The default controls, as pairs of a button and the action it triggers.
pub open spec fn default_bindings_spec() -> Seq<(InputButton, ControlAction)> {
    seq![
        (InputButton::W, ControlAction::Forward),
        (InputButton::S, ControlAction::Backward),
        (InputButton::A, ControlAction::Left),
        (InputButton::D, ControlAction::Right),
        (InputButton::Space, ControlAction::Jump),
        (InputButton::MouseLeft, ControlAction::BaseAttack),
        (InputButton::Q, ControlAction::Ability1),
        (InputButton::E, ControlAction::Ability2),
        (InputButton::LShift, ControlAction::Ability3),
        (InputButton::R, ControlAction::Ultimate),
    ]
}

/// The default controls (see [`default_bindings_spec`]).
pub fn default_bindings() -> (v: Vec<(InputButton, ControlAction)>)
    ensures
        v@ == default_bindings_spec(),
{
    vec![
        (InputButton::W, ControlAction::Forward),
        (InputButton::S, ControlAction::Backward),
        (InputButton::A, ControlAction::Left),
        (InputButton::D, ControlAction::Right),
        (InputButton::Space, ControlAction::Jump),
        (InputButton::MouseLeft, ControlAction::BaseAttack),
        (InputButton::Q, ControlAction::Ability1),
        (InputButton::E, ControlAction::Ability2),
        (InputButton::LShift, ControlAction::Ability3),
        (InputButton::R, ControlAction::Ultimate),
    ]
}

/// Every action has exactly one default button, and no button triggers two
/// actions.
pub proof fn lemma_default_bindings_one_to_one()
    ensures
        forall|i: int, j: int|
            0 <= i < 10 && 0 <= j < 10 && i != j ==> (#[trigger] default_bindings_spec()[i]).0
                != (#[trigger] default_bindings_spec()[j]).0 && default_bindings_spec()[i].1
                != default_bindings_spec()[j].1,
        default_bindings_spec().len() == 10,
{
}

} // verus!
