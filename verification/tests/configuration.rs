use mtga_tracker::tracker::configuration::{Config, TrackerCommand, DEFAULT_COLLECTOR_PATH, DEFAULT_DATABASE_PATH};

fn args(list: &[&str]) -> Vec<String> {
    list.iter().map(|s| s.to_string()).collect()
}

#[test]
fn no_argument_runs_the_parser_with_default_paths() {
    let c = Config::new(&args(&["tracker"])).ok().unwrap();
    match c.command() {
        TrackerCommand::Parse(p) => {
            assert_eq!(p.collector_dll_path, DEFAULT_COLLECTOR_PATH);
            assert_eq!(p.database_path, "./mtga-tracker.db");
        },
        _ => panic!("parse"),
    }
}

#[test]
fn dump_takes_an_optional_collector_path_and_any_case() {
    match Config::new(&args(&["tracker", "DuMp"])).ok().unwrap().command() {
        TrackerCommand::Dump(p) => {
            assert_eq!(p, "./mtga-datacollector/bin/x64/Release/netstandard2.1/mtga-datacollector.dll")
        },
        _ => panic!("dump"),
    }
    match Config::new(&args(&["tracker", "dump", "c.dll"])).ok().unwrap().command() {
        TrackerCommand::Dump(p) => assert_eq!(p, "c.dll"),
        _ => panic!("dump"),
    }
}

#[test]
fn createdb_needs_two_inputs() {
    assert_eq!(Config::new(&args(&["tracker", "createdb"])).err(), Some(String::from("Please provide a scryfall cards db path")));
    assert_eq!(Config::new(&args(&["tracker", "createdb", "s.json"])).err(), Some(String::from("Please provide an mtga cards db path")));
    match Config::new(&args(&["tracker", "createdb", "s.json", "m.json"])).ok().unwrap().command() {
        TrackerCommand::CreateDatabase(p) => {
            assert_eq!(p.scryfall_cards_json_path, "s.json");
            assert_eq!(p.mtga_cards_json_path, "m.json");
            assert_eq!(p.database_output_path, DEFAULT_DATABASE_PATH);
        },
        _ => panic!("createdb"),
    }
    match Config::new(&args(&["tracker", "CreateDB", "s.json", "m.json", "out.db"])).ok().unwrap().command() {
        TrackerCommand::CreateDatabase(p) => assert_eq!(p.database_output_path, "out.db"),
        _ => panic!("createdb"),
    }
}

#[test]
fn dumpartists_writes_to_the_mtga_path_argument() {
    assert_eq!(Config::new(&args(&["tracker", "dumpartists", "s.json"])).err(), Some(String::from("Please provide an mtga cards db path")));
    match Config::new(&args(&["tracker", "dumpartists", "s.json", "m.json", "report.txt"])).ok().unwrap().command() {
        TrackerCommand::DumpArtistMapping(p) => {
            assert_eq!(p.scryfall_cards_json_path, "s.json");
            assert_eq!(p.mtga_cards_json_path, "m.json");
            assert_eq!(p.output_file, "m.json");
        },
        _ => panic!("dumpartists"),
    }
}

#[test]
fn unknown_commands_are_refused() {
    assert_eq!(Config::new(&args(&["tracker", "serve"])).err(), Some(String::from("Unrecognized command")));
}
