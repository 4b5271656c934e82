use llama_launcher::search::{
    exe_file_name, is_rpc_binary_name, is_server_binary_name, subdir_order, ExeSearch,
    SearchPhase, SearchStep, SettingsManager, TargetOs, MAX_SEARCH_DEPTH,
};

/// A directory tree held in memory: each directory with its files and, in
/// listing order, its subdirectories.
struct Tree {
    dirs: Vec<(String, Vec<String>, Vec<String>)>,
}

impl Tree {
    fn new(root: &str) -> Tree {
        Tree { dirs: vec![(root.to_string(), Vec::new(), Vec::new())] }
    }

    fn dir_index(&mut self, path: &str) -> usize {
        if let Some(i) = self.dirs.iter().position(|d| d.0 == path) {
            return i;
        }
        let (parent, name) = path.rsplit_once('/').unwrap();
        let p = self.dir_index(parent);
        self.dirs[p].1.push(name.to_string());
        self.dirs.push((path.to_string(), Vec::new(), Vec::new()));
        self.dirs.len() - 1
    }

    /// Creates the directory (with its parents) and a file in it; returns the file's path.
    fn make_exe(&mut self, dir: &str, name: &str) -> String {
        let i = self.dir_index(dir);
        self.dirs[i].2.push(name.to_string());
        format!("{}/{}", dir, name)
    }

    fn has_path(&self, path: &str) -> bool {
        let (parent, name) = path.rsplit_once('/').unwrap();
        self.dirs.iter().any(|d| d.0 == parent && (d.2.iter().any(|f| f == name) || d.1.iter().any(|s| s == name)))
    }

    fn subdirs(&self, path: &str) -> Vec<String> {
        self.dirs.iter().find(|d| d.0 == path).map(|d| d.1.clone()).unwrap_or_default()
    }
}

/// Runs a search over the tree; also returns the directories checked, in order.
fn run(tree: &Tree, root: &str, start: (ExeSearch, SearchStep)) -> (Option<String>, Vec<String>) {
    let (mut search, mut step) = start;
    let mut paths = vec![root.to_string()];
    let mut checked = Vec::new();
    loop {
        match step {
            SearchStep::CheckExe(h) => {
                checked.push(paths[h].clone());
                let p = format!("{}/{}", paths[h], search.exe_file());
                assert_eq!(search.current_phase(), SearchPhase::AwaitingExeCheck);
                step = search.on_exe_checked(tree.has_path(&p));
            }
            SearchStep::ListSubdirs(h) => {
                let names = tree.subdirs(&paths[h]);
                for n in &names {
                    paths.push(format!("{}/{}", paths[h], n));
                }
                assert_eq!(search.known_dirs() + names.len(), paths.len());
                step = search.on_subdirs(names);
            }
            SearchStep::Found(h) => {
                return (Some(format!("{}/{}", paths[h], search.exe_file())), checked);
            }
            SearchStep::NotFound => return (None, checked),
        }
    }
}

fn find_server(tree: &Tree, root: &str) -> Option<String> {
    let manager = SettingsManager::new(root.to_string());
    run(tree, root, manager.auto_detect_server_path(TargetOs::Other)).0
}

#[test]
fn find_exe_recursive_dir_itself() {
    let mut tree = Tree::new("/tmp/t");
    let exe = tree.make_exe("/tmp/t", "llama-server");
    assert_eq!(find_server(&tree, "/tmp/t"), Some(exe));
}

#[test]
fn find_exe_recursive_keyword_subdir_one_level() {
    let mut tree = Tree::new("/tmp/t");
    let exe = tree.make_exe("/tmp/t/llama-b10549", "llama-server");
    assert_eq!(find_server(&tree, "/tmp/t"), Some(exe));
}

#[test]
fn find_exe_recursive_deep_path_depth_3() {
    let mut tree = Tree::new("/tmp/t");
    let exe = tree.make_exe("/tmp/t/llama/llama-b10549/bin", "llama-server");
    assert_eq!(find_server(&tree, "/tmp/t"), Some(exe));
}

#[test]
fn find_exe_recursive_depth_5_not_found() {
    let mut tree = Tree::new("/tmp/t");
    let exe = tree.make_exe("/tmp/t/a/b/c/d/e", "llama-server");
    assert!(tree.has_path(&exe));
    assert_eq!(find_server(&tree, "/tmp/t"), None);
}

#[test]
fn search_depth_4_is_still_found() {
    let mut tree = Tree::new("/r");
    let exe = tree.make_exe("/r/a/b/c/d", "llama-server");
    assert_eq!(find_server(&tree, "/r"), Some(exe));
    assert_eq!(MAX_SEARCH_DEPTH, 4);
}

#[test]
fn search_prefers_keyword_and_shallow_directories() {
    // Two copies: the one in the keyword directory wins over an earlier-listed one.
    let mut tree = Tree::new("/r");
    tree.make_exe("/r/alpha", "llama-server");
    let exe = tree.make_exe("/r/my-LLAMA", "llama-server");
    assert_eq!(find_server(&tree, "/r"), Some(exe));
    // A shallow copy wins over a deeper one in a keyword directory.
    let mut tree = Tree::new("/r");
    tree.make_exe("/r/llama/deep", "llama-server");
    let exe = tree.make_exe("/r/zeta", "llama-server");
    assert_eq!(find_server(&tree, "/r"), Some(exe));
}

#[test]
fn search_visits_breadth_first_in_name_order() {
    let mut tree = Tree::new("/r");
    tree.make_exe("/r/b/x", "other");
    tree.make_exe("/r/A", "other");
    tree.make_exe("/r/llama2", "other");
    tree.make_exe("/r/a2/y", "other");
    let (found, checked) = run(&tree, "/r", SettingsManager::new("/r".to_string()).auto_detect_server_path(TargetOs::Other));
    assert_eq!(found, None);
    assert_eq!(
        checked,
        vec!["/r", "/r/llama2", "/r/A", "/r/a2", "/r/b", "/r/a2/y", "/r/b/x"]
    );
}

#[test]
fn rpc_search_looks_for_ggml_rpc_server() {
    let mut tree = Tree::new("/r");
    let exe = tree.make_exe("/r/llama", "ggml-rpc-server.exe");
    let manager = SettingsManager::new("/r".to_string());
    assert_eq!(manager.config_dir(), "/r");
    let (found, _) = run(&tree, "/r", manager.auto_detect_rpc_path(TargetOs::Windows));
    assert_eq!(found, Some(exe));
}

#[test]
fn search_start_state() {
    let (s, step) = ExeSearch::start("tool".to_string(), "KeyWord");
    assert_eq!(step, SearchStep::CheckExe(0));
    assert_eq!(s.exe_file(), "tool");
    assert_eq!(s.known_dirs(), 1);
    assert_eq!(s.current_phase(), SearchPhase::AwaitingExeCheck);
}

#[test]
fn manager_directory_of_the_executable() {
    assert_eq!(SettingsManager::for_executable(Some(Some("/opt/launcher".to_string()))).config_dir(), "/opt/launcher");
    assert_eq!(SettingsManager::for_executable(Some(None)).config_dir(), "");
    assert_eq!(SettingsManager::for_executable(None).config_dir(), ".");
    let m = SettingsManager::for_executable(None);
    assert_eq!(m.config_dir(), m.config_dir());
}

#[test]
fn search_finds_a_shallowest_copy() {
    // Copies at depths 3 and 2: the one at depth 2 is found, although the
    // deeper one sits below a keyword directory listed first.
    let mut tree = Tree::new("/r");
    tree.make_exe("/r/llama/a/b", "llama-server");
    let exe = tree.make_exe("/r/zz/c", "llama-server");
    assert_eq!(find_server(&tree, "/r"), Some(exe));
}

#[test]
fn search_keyword_ignores_case() {
    let mut tree = Tree::new("/r");
    tree.make_exe("/r/a", "other");
    tree.make_exe("/r/My-Keyword-Dir", "other");
    let (found, checked) = run(&tree, "/r", ExeSearch::start("tool".to_string(), "KeyWord"));
    assert_eq!(found, None);
    assert_eq!(checked, vec!["/r", "/r/My-Keyword-Dir", "/r/a"]);
}

#[test]
fn subdir_order_keyword_then_name_then_listing() {
    let names: Vec<Vec<char>> = ["zz", "b", "llama-x", "a", "b", "xllama"]
        .iter()
        .map(|s| s.chars().collect())
        .collect();
    let kw: Vec<char> = "llama".chars().collect();
    assert_eq!(subdir_order(&names, &kw), vec![2, 5, 3, 1, 4, 0]);
    let empty: Vec<Vec<char>> = Vec::new();
    assert_eq!(subdir_order(&empty, &kw), Vec::<usize>::new());
}

#[test]
fn binary_names_per_platform() {
    assert!(is_server_binary_name("llama-server", TargetOs::Other));
    assert!(!is_server_binary_name("llama-server.exe", TargetOs::Other));
    assert!(is_server_binary_name("llama-server.exe", TargetOs::Windows));
    assert!(!is_server_binary_name("llama-server", TargetOs::Windows));
    assert!(is_rpc_binary_name("ggml-rpc-server", TargetOs::Other));
    assert!(is_rpc_binary_name("rpc-server", TargetOs::Other));
    assert!(is_rpc_binary_name("rpc-server.exe", TargetOs::Windows));
    assert!(!is_rpc_binary_name("llama-server", TargetOs::Other));
    assert_eq!(exe_file_name("x", TargetOs::Windows), "x.exe");
    assert_eq!(exe_file_name("x", TargetOs::Other), "x");
}
