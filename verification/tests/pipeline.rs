use p4clean::batch::make_batches;
use p4clean::dispatch::flatten_results;
use p4clean::p4::delete;
use p4clean::p4::files;
use p4clean::p4::ignores;
use p4clean::p4::where_;
use p4clean::p4::Options;
use p4clean::pipeline::decide_act;
use p4clean::pipeline::normalize_path;
use p4clean::pipeline::normalize_paths;
use p4clean::pipeline::strip_wildcard;
use p4clean::pipeline::ActPlan;

fn strings(items: &[&str]) -> Vec<String> {
    items.iter().map(|s| s.to_string()).collect()
}

fn full_options() -> Options {
    Options {
        port: Some("perforce:1666".to_string()),
        user: Some("alice".to_string()),
        client: Some("alice-ws".to_string()),
    }
}

#[test]
fn connection_flags_follow_presence_and_order() {
    let opts = full_options();
    let mut args = Vec::new();
    opts.append_args(&mut args);
    assert_eq!(
        args,
        strings(&["-p", "perforce:1666", "-u", "alice", "-c", "alice-ws"])
    );

    let partial = Options {
        port: None,
        user: Some("bob".to_string()),
        client: None,
    };
    let mut args = Vec::new();
    partial.append_args(&mut args);
    assert_eq!(args, strings(&["-u", "bob"]));
}

#[test]
fn files_command_args_shape() {
    let opts = Options {
        port: None,
        user: None,
        client: None,
    };
    let args = files::command_args(&opts, &"//depot/...".to_string());
    assert_eq!(
        args,
        strings(&["-Mj", "-z", "tag", "files", "-e", "//depot/..."])
    );
}

#[test]
fn ignores_command_args_have_no_machine_flags() {
    let opts = full_options();
    let args = ignores::command_args(&opts, &strings(&["a.txt", "b.log"]));
    assert_eq!(
        args,
        strings(&[
            "-p",
            "perforce:1666",
            "-u",
            "alice",
            "-c",
            "alice-ws",
            "ignores",
            "-i",
            "a.txt",
            "b.log"
        ])
    );
    let args = ignores::mappings_command_args(&opts);
    assert_eq!(args[args.len() - 1], "ignores");
}

#[test]
fn delete_command_args_keep_flag() {
    let opts = Options {
        port: None,
        user: None,
        client: None,
    };
    let kept = delete::command_args(&opts, true, &strings(&["x"]));
    assert_eq!(kept, strings(&["-Mj", "-z", "tag", "delete", "-k", "x"]));
    let plain = delete::command_args(&opts, false, &strings(&["x"]));
    assert_eq!(plain, strings(&["-Mj", "-z", "tag", "delete", "x"]));
}

#[test]
fn flattening_keeps_every_batch_record() {
    let results = vec![strings(&["b1"]), strings(&[]), strings(&["a1", "a2"])];
    let flat = flatten_results(results);
    assert_eq!(flat, strings(&["b1", "a1", "a2"]));

    let none: Vec<Vec<String>> = Vec::new();
    assert!(flatten_results(none).is_empty());

    let arrived_other_order = vec![strings(&["a1", "a2"]), strings(&["b1"]), strings(&[])];
    let mut flat2 = flatten_results(arrived_other_order);
    let mut flat1 = strings(&["b1", "a1", "a2"]);
    flat1.sort();
    flat2.sort();
    assert_eq!(flat1, flat2);
}

#[test]
fn normalize_strips_working_directory_prefix() {
    assert_eq!(normalize_path("/ws/dir/a.txt", "/ws"), "dir/a.txt");
    assert_eq!(normalize_path("/elsewhere/a.txt", "/ws"), "/elsewhere/a.txt");
    assert_eq!(normalize_path("/ws", "/ws"), "/ws");
    assert_eq!(normalize_path("/wsx/a.txt", "/ws"), "/wsx/a.txt");
    assert_eq!(normalize_path("/ws/a b.txt", ""), "/ws/a b.txt");
}

#[test]
fn normalize_paths_maps_each_entry() {
    let paths = strings(&["/ws/a.txt", "/other/b.txt"]);
    let r = normalize_paths(&paths, "/ws");
    assert_eq!(r, strings(&["a.txt", "/other/b.txt"]));
}

#[test]
fn wildcard_suffix_is_stripped_from_directories() {
    assert_eq!(strip_wildcard("/ws/dir/..."), "/ws/dir");
    assert_eq!(strip_wildcard("/ws/dir"), "/ws/dir");
    assert_eq!(strip_wildcard("/ws/x..."), "/ws/x...");
    assert_eq!(strip_wildcard("..."), "...");
}

#[test]
fn dry_run_reports_classified_paths_unchanged() {
    let classified = strings(&["/ws/b.log", "/ws/c d.tmp"]);
    match decide_act(true, classified.clone()) {
        ActPlan::Report(paths) => assert_eq!(paths, classified),
        ActPlan::Delete(_) => panic!("dry run must not delete"),
    }
}

#[test]
fn live_run_deletes_exactly_the_classified_paths() {
    let classified = strings(&["/ws/b.log"]);
    match decide_act(false, classified.clone()) {
        ActPlan::Report(_) => panic!("live run must delete"),
        ActPlan::Delete(paths) => assert_eq!(paths, classified),
    }
}

#[test]
fn end_to_end_dry_run_then_live_run() {
    let opts = full_options();

    let mut discover_out = String::new();
    discover_out.push_str("{\"action\":\"add\",\"change\":\"1\",\"depotFile\":\"//depot/a.txt\",\"rev\":\"1\",\"time\":\"0\",\"type\":\"text\"}\n");
    discover_out.push_str("{\"action\":\"add\",\"change\":\"2\",\"depotFile\":\"//depot/b.log\",\"rev\":\"1\",\"time\":\"0\",\"type\":\"text\"}\n");
    let discovered = files::parse_output(discover_out.as_bytes());
    let depot_paths = files::depot_paths(&discovered);
    assert_eq!(depot_paths, strings(&["//depot/a.txt", "//depot/b.log"]));

    let mut map_out = String::new();
    map_out.push_str("{\"clientFile\":\"//c/a.txt\",\"depotFile\":\"//depot/a.txt\",\"path\":\"/ws/a.txt\"}\n");
    map_out.push_str("{\"clientFile\":\"//c/b.log\",\"depotFile\":\"//depot/b.log\",\"path\":\"/ws/b.log\"}\n");
    let mapped = where_::parse_output(map_out.as_bytes());
    let ws_paths = where_::local_paths(&mapped);
    assert_eq!(ws_paths, strings(&["/ws/a.txt", "/ws/b.log"]));

    let ws_paths = normalize_paths(&ws_paths, "/elsewhere");
    assert_eq!(ws_paths, strings(&["/ws/a.txt", "/ws/b.log"]));

    let classify_out = b"/ws/b.log ignored\n";
    let classified = ignores::parse_lines(classify_out);
    assert_eq!(classified, strings(&["/ws/b.log"]));

    let mut delete_invocations = 0;
    match decide_act(true, classified.clone()) {
        ActPlan::Report(reported) => assert_eq!(reported, strings(&["/ws/b.log"])),
        ActPlan::Delete(_) => delete_invocations += 1,
    }
    assert_eq!(delete_invocations, 0);

    match decide_act(false, classified) {
        ActPlan::Report(_) => panic!("live run must delete"),
        ActPlan::Delete(paths) => {
            let batches = make_batches(&paths, 1024 - 100);
            assert_eq!(batches.len(), 1);
            assert_eq!(batches[0], strings(&["/ws/b.log"]));
            let args = delete::command_args(&opts, true, &batches[0]);
            assert!(args.contains(&"/ws/b.log".to_string()));
            delete_invocations += batches.len();
        },
    }
    assert_eq!(delete_invocations, 1);

    let confirm_out = "{\"action\":\"deleted\",\"clientFile\":\"/ws/b.log\",\"depotFile\":\"//depot/b.log\",\"type\":\"text\",\"workRev\":\"1\"}\n";
    let confirmations = delete::parse_output(confirm_out.as_bytes());
    assert_eq!(confirmations.len(), 1);
    assert_eq!(confirmations[0].client_file, "/ws/b.log");
}

#[test]
fn large_dispatch_preserves_total_record_count() {
    let limit = 1024 - 100;
    let path = "//depot/dir/subdir/file_0000000000AB.txt";
    assert_eq!(path.len(), 40);
    let args: Vec<String> = (0..10_000).map(|_| path.to_string()).collect();
    let batches = make_batches(&args, limit);
    let per_batch: Vec<Vec<String>> = batches
        .iter()
        .map(|b| {
            let mut out = Vec::new();
            for p in b {
                out.push(format!("{} ignored", p));
            }
            ignores::parse_lines(out.join("\n").as_bytes())
        })
        .collect();
    let all = flatten_results(per_batch);
    assert_eq!(all.len(), 10_000);
    assert!(all.iter().all(|p| p == path));
}
