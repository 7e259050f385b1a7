use mannager::depot::{download_args, parse_percent, tool_release_url, DownloadStatus, Progress};
use mannager::game::{get_arg_game_name, server_args, ServerInfo, SourceAppIDs, SourceEngineVersion};
use mannager::platform::{ArchiveFormat, TargetOs};
use mannager::ports::{PortSearch, DEFAULT_PORT};

fn run_search(start: u16, free: impl Fn(u16) -> bool) -> u16 {
    let mut s = PortSearch::new(start);
    while let Some((game, _client)) = s.next_pair() {
        s.report(free(game));
    }
    s.port()
}

#[test]
fn taken_start_moves_on() {
    let p = run_search(27015, |p| p != 27015);
    assert_eq!(p, 27025);
    assert_ne!(p, 0);
}

#[test]
fn free_start_is_kept() {
    assert_eq!(run_search(28000, |_| true), 28000);
    assert_eq!(PortSearch::new(28000).next_pair(), Some((28000, 28010)));
}

#[test]
fn zero_start_means_default_port() {
    assert_eq!(run_search(0, |_| true), DEFAULT_PORT);
}

#[test]
fn all_taken_settles_on_last_try() {
    assert_eq!(run_search(27015, |_| false), 27015 + 490);
}

#[test]
fn search_stops_at_top_of_port_range() {
    assert_eq!(run_search(65500, |_| false), 65520);
    assert_eq!(run_search(65530, |_| false), 65530);
}

#[test]
fn percent_lines() {
    assert_eq!(parse_percent("10% ..."), Some(10));
    assert_eq!(parse_percent(" 55.21% depots/232250/file"), Some(55));
    assert_eq!(parse_percent("100.00% done"), Some(100));
    assert_eq!(parse_percent("Connecting to Steam3..."), None);
    assert_eq!(parse_percent("abc% x"), None);
    assert_eq!(parse_percent("5.x% x"), None);
}

#[test]
fn progress_stream_updates_status() {
    let events = vec![
        Progress::Downloading("10% ...".to_string()),
        Progress::Downloading("55% ...".to_string()),
        Progress::Downloading("100% ...".to_string()),
        Progress::Finished,
    ];
    let percents: Vec<Option<u32>> = events.iter().map(|p| p.percent()).collect();
    assert_eq!(percents, vec![Some(10), Some(55), Some(100), None]);
    let mut st = DownloadStatus::new();
    for e in events {
        st.apply(e);
    }
    assert_eq!(st.percent, 100);
    assert_eq!(st.log.len(), 3);
    assert!(st.finished);
}

#[test]
fn tool_invocation() {
    assert_eq!(download_args(232250, "/srv/tf2"), vec!["-app", "232250", "-dir", "/srv/tf2"]);
    assert_eq!(
        tool_release_url(TargetOs::Linux),
        "https://github.com/SteamRE/DepotDownloader/releases/latest/download/DepotDownloader-linux-x64.zip"
    );
}

#[test]
fn game_tables() {
    assert_eq!(get_arg_game_name(&SourceAppIDs::CounterStrikeSource), "cstrike");
    assert_eq!(SourceAppIDs::NoMoreRoomInHell.app_id(), 317670);
    assert_eq!(u32::from(SourceAppIDs::CounterStrike2), 730);
    assert_eq!(u32::from(SourceEngineVersion::Source2), 2);
    assert_eq!(TargetOs::Linux.archive_format(), ArchiveFormat::TarGz);
    assert_eq!(TargetOs::Windows.archive_format(), ArchiveFormat::Zip);
}

fn info(game: SourceAppIDs, max_players: u32) -> ServerInfo {
    ServerInfo {
        name: "My Server".to_string(),
        game,
        description: String::new(),
        path: "/srv".to_string(),
        map: "cp_badlands".to_string(),
        max_players,
        password: String::new(),
        port: 0,
    }
}

#[test]
fn launch_arguments() {
    let args = server_args(&info(SourceAppIDs::TeamFortress2, 24), 27015);
    assert_eq!(
        args,
        vec![
            "-console", "-game", "tf", "+hostname", "\"My Server\"", "+map", "cp_badlands",
            "+maxplayers", "24", "-nohltv", "-strictportbind", "+ip", "0.0.0.0", "-port", "27015",
            "-clientport", "27025",
        ]
    );
    let big = server_args(&info(SourceAppIDs::TeamFortress2, 100), 27015);
    assert_eq!(big.last().unwrap(), "-unrestricted_maxplayers");
    let css = server_args(&info(SourceAppIDs::CounterStrikeSource, 100), 65525);
    assert_eq!(css.len(), 17);
    assert_eq!(css[16], "65535");
}

#[test]
fn lines_without_percent_keep_the_last_one() {
    let mut st = DownloadStatus::new();
    st.apply(Progress::Downloading("42.50% a".to_string()));
    st.apply(Progress::Downloading("Got depot key".to_string()));
    assert_eq!(st.percent, 42);
    assert_eq!(st.log, vec!["42.50% a".to_string(), "Got depot key".to_string()]);
    assert!(!st.finished);
}
