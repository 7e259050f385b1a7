use vstd::prelude::*;
use vstd::string::*;
use crate::ports::PORT_OFFSET;
use crate::text::{decimal_text, push_decimal, strings_view};

verus! {

/// Generation of the game engine a server runs on.
#[derive(Debug, Clone, Copy, PartialEq, Eq, Structural)]
pub enum SourceEngineVersion {
    Source1,
    Source2,
}

/// The engine's major version number, as it appears in download paths.
pub open spec fn engine_major(v: SourceEngineVersion) -> u32 {
    match v {
        SourceEngineVersion::Source1 => 1,
        SourceEngineVersion::Source2 => 2,
    }
}

impl SourceEngineVersion {
    pub fn major(&self) -> (r: u32)
        ensures
            r == engine_major(*self),
    {
        match self {
            SourceEngineVersion::Source1 => 1,
            SourceEngineVersion::Source2 => 2,
        }
    }
}

impl From<SourceEngineVersion> for u32 {
    fn from(value: SourceEngineVersion) -> (r: u32) {
        value.major()
    }
}

impl vstd::std_specs::convert::FromSpecImpl<SourceEngineVersion> for u32 {
    open spec fn obeys_from_spec() -> bool {
        true
    }

    open spec fn from_spec(v: SourceEngineVersion) -> u32 {
        engine_major(v)
    }
}

/// The games whose dedicated servers can be managed.
#[derive(Debug, Clone, Copy, PartialEq, Eq, Structural)]
pub enum SourceAppIDs {
    TeamFortress2,
    CounterStrikeSource,
    CounterStrike2,
    LeftForDead1,
    LeftForDead2,
    HalfLife2DM,
    NoMoreRoomInHell,
}

/// The depot that holds a game's dedicated server.
pub open spec fn app_id_spec(g: SourceAppIDs) -> u32 {
    match g {
        SourceAppIDs::TeamFortress2 => 232250,
        SourceAppIDs::CounterStrikeSource => 232330,
        SourceAppIDs::CounterStrike2 => 730,
        SourceAppIDs::LeftForDead1 => 222840,
        SourceAppIDs::LeftForDead2 => 222860,
        SourceAppIDs::HalfLife2DM => 232370,
        SourceAppIDs::NoMoreRoomInHell => 317670,
    }
}

/// The game's directory name, also passed to the server as `-game`.
pub open spec fn short_name_spec(g: SourceAppIDs) -> Seq<char> {
    match g {
        SourceAppIDs::TeamFortress2 => "tf"@,
        SourceAppIDs::CounterStrikeSource => "cstrike"@,
        SourceAppIDs::CounterStrike2 => "cs"@,
        SourceAppIDs::LeftForDead1 => "left4dead"@,
        SourceAppIDs::LeftForDead2 => "left4dead2"@,
        SourceAppIDs::HalfLife2DM => "hl2mp"@,
        SourceAppIDs::NoMoreRoomInHell => "nmrih"@,
    }
}

impl SourceAppIDs {
    pub fn app_id(&self) -> (r: u32)
        ensures
            r == app_id_spec(*self),
    {
        match self {
            SourceAppIDs::TeamFortress2 => 232250,
            SourceAppIDs::CounterStrikeSource => 232330,
            SourceAppIDs::CounterStrike2 => 730,
            SourceAppIDs::LeftForDead1 => 222840,
            SourceAppIDs::LeftForDead2 => 222860,
            SourceAppIDs::HalfLife2DM => 232370,
            SourceAppIDs::NoMoreRoomInHell => 317670,
        }
    }
}

impl From<SourceAppIDs> for u32 {
    fn from(value: SourceAppIDs) -> (r: u32) {
        value.app_id()
    }
}

impl vstd::std_specs::convert::FromSpecImpl<SourceAppIDs> for u32 {
    open spec fn obeys_from_spec() -> bool {
        true
    }

    open spec fn from_spec(v: SourceAppIDs) -> u32 {
        app_id_spec(v)
    }
}

/// The game's directory name, also passed to the server as `-game`.
pub fn get_arg_game_name(game: &SourceAppIDs) -> (r: &'static str)
    ensures
        r@ == short_name_spec(*game),
{
    match game {
        SourceAppIDs::TeamFortress2 => "tf",
        SourceAppIDs::CounterStrikeSource => "cstrike",
        SourceAppIDs::CounterStrike2 => "cs",
        SourceAppIDs::LeftForDead1 => "left4dead",
        SourceAppIDs::LeftForDead2 => "left4dead2",
        SourceAppIDs::HalfLife2DM => "hl2mp",
        SourceAppIDs::NoMoreRoomInHell => "nmrih",
    }
}

/// A configured server.
#[derive(Debug, Clone)]
pub struct ServerInfo {
    pub name: String,
    pub game: SourceAppIDs,
    pub description: String,
    pub path: String,
    pub map: String,
    pub max_players: u32,
    pub password: String,
    pub port: u16,
}

/// Above this many players a Team Fortress 2 server must be told to allow them.
pub const RESTRICTED_MAX_PLAYERS: u32 = 32;

/// The command line of a dedicated server for `info` listening on `port`;
/// the client port is `PORT_OFFSET` above it, so both must be valid ports.
pub open spec fn server_args_spec(info: ServerInfo, port: u16) -> Seq<Seq<char>> {
    let base = seq![
        "-console"@,
        "-game"@,
        short_name_spec(info.game),
        "+hostname"@,
        seq!['"'] + info.name@ + seq!['"'],
        "+map"@,
        info.map@,
        "+maxplayers"@,
        decimal_text(info.max_players as nat),
        "-nohltv"@,
        "-strictportbind"@,
        "+ip"@,
        "0.0.0.0"@,
        "-port"@,
        decimal_text(port as nat),
        "-clientport"@,
        decimal_text((port + PORT_OFFSET) as nat),
    ];
    if info.max_players > RESTRICTED_MAX_PLAYERS && info.game == SourceAppIDs::TeamFortress2 {
        base.push("-unrestricted_maxplayers"@)
    } else {
        base
    }
}

fn decimal_string(n: u32) -> (r: String)
    ensures
        r@ == decimal_text(n as nat),
{
    let mut s = String::new();
    push_decimal(&mut s, n);
    assert(s@ =~= decimal_text(n as nat));
    s
}

/// Builds the arguments for launching the server described by `info` on `port`.
pub fn server_args(info: &ServerInfo, port: u16) -> (r: Vec<String>)
    requires
        port <= u16::MAX - PORT_OFFSET,
    ensures
        strings_view(r@) == server_args_spec(*info, port),
{
    proof {
        reveal_strlit("\"");
    }
    let mut args: Vec<String> = Vec::new();
    args.push(String::from_str("-console"));
    args.push(String::from_str("-game"));
    args.push(String::from_str(get_arg_game_name(&info.game)));
    args.push(String::from_str("+hostname"));
    let mut host = String::from_str("\"");
    host.append(info.name.as_str());
    host.append("\"");
    args.push(host);
    args.push(String::from_str("+map"));
    args.push(info.map.clone());
    args.push(String::from_str("+maxplayers"));
    args.push(decimal_string(info.max_players));
    args.push(String::from_str("-nohltv"));
    args.push(String::from_str("-strictportbind"));
    args.push(String::from_str("+ip"));
    args.push(String::from_str("0.0.0.0"));
    args.push(String::from_str("-port"));
    args.push(decimal_string(port as u32));
    args.push(String::from_str("-clientport"));
    args.push(decimal_string((port + PORT_OFFSET) as u32));
    if info.max_players > RESTRICTED_MAX_PLAYERS && info.game == SourceAppIDs::TeamFortress2 {
        args.push(String::from_str("-unrestricted_maxplayers"));
    }
    let ghost sp = server_args_spec(*info, port);
    let ghost v = strings_view(args@);
    assert(v.len() == sp.len());
    assert(v[4] == sp[4]);
    assert(strings_view(args@) =~= server_args_spec(*info, port));
    args
}

} // verus!
