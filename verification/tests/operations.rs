use std::collections::{BTreeMap, VecDeque};
use std::io::Write;

use crust_build::context::Context;
use crust_build::downloads::{download, Downloading};
use crust_build::effect::{Next, PathProbe, Request, Response};
use crust_build::failure::Failure;
use crust_build::io::{
    apply_permissions, copy, create_dir, create_symlink, delete, rename, unzip, write_bytes,
    write_string, Copying, Deletion, Linking, Unzipping, Writing,
};
use crust_build::manifests::{create, create_in, Manifesting};
use crust_build::outputs::{clean, collect, collect_into, output_dir, Collecting};
use crust_build::recipe::{Recipe, Stage};
use crust_build::windows;
use crust_build::plan::Plan;
use crust_build::platform::Platform;
use crust_build::remote_zips::{fetch, Fetching};
use crust_build::script::{Environment, Script};
use crust_build::scripts::{run, Running};
use crust_build::target::Target;
use crust_build::variant::Variant;

#[derive(Clone, Debug, PartialEq)]
enum Node {
    File { content: Vec<u8>, mode: Option<u32> },
    Dir,
    Link { target: String },
}

#[derive(Default)]
struct World {
    nodes: BTreeMap<String, Node>,
    pages: BTreeMap<String, (u16, Vec<u8>)>,
    downloads: usize,
    workspaces: usize,
    output: Vec<String>,
    spawned: Vec<(String, String, Vec<(String, String)>)>,
    requests: Vec<String>,
    refuse: Option<String>,
    signal: bool,
    lenient: bool,
    commands: Vec<String>,
    printed: Vec<String>,
}

trait Machine: Sized {
    fn advance(self, response: Response) -> Next<Self>;
}

impl Machine for Deletion {
    fn advance(self, response: Response) -> Next<Self> {
        self.step(response)
    }
}

impl Machine for Writing {
    fn advance(self, response: Response) -> Next<Self> {
        self.step(response)
    }
}

impl Machine for Copying {
    fn advance(self, response: Response) -> Next<Self> {
        self.step(response)
    }
}

impl Machine for Linking {
    fn advance(self, response: Response) -> Next<Self> {
        self.step(response)
    }
}

impl Machine for Unzipping {
    fn advance(self, response: Response) -> Next<Self> {
        self.step(response)
    }
}

impl Machine for Running {
    fn advance(self, response: Response) -> Next<Self> {
        self.step(response)
    }
}

impl Machine for Downloading {
    fn advance(self, response: Response) -> Next<Self> {
        self.step(response)
    }
}

impl Machine for Fetching {
    fn advance(self, response: Response) -> Next<Self> {
        self.step(response)
    }
}

impl Machine for Collecting {
    fn advance(self, response: Response) -> Next<Self> {
        self.step(response)
    }
}

impl Machine for Manifesting {
    fn advance(self, response: Response) -> Next<Self> {
        self.step(response)
    }
}

impl Machine for Plan {
    fn advance(self, response: Response) -> Next<Self> {
        self.step(response)
    }
}

impl Machine for Recipe {
    fn advance(self, response: Response) -> Next<Self> {
        self.step(response)
    }
}

fn kind(request: &Request) -> &'static str {
    match request {
        Request::Probe { .. } => "Probe",
        Request::ListDir { .. } => "ListDir",
        Request::ReadFile { .. } => "ReadFile",
        Request::CreateDirAll { .. } => "CreateDirAll",
        Request::RemoveTree { .. } => "RemoveTree",
        Request::RemoveFile { .. } => "RemoveFile",
        Request::CopyFile { .. } => "CopyFile",
        Request::Rename { .. } => "Rename",
        Request::WriteFile { .. } => "WriteFile",
        Request::SetPermissions { .. } => "SetPermissions",
        Request::AcquireWorkspace { .. } => "AcquireWorkspace",
        Request::ReleaseWorkspace { .. } => "ReleaseWorkspace",
        Request::HttpGet { .. } => "HttpGet",
        Request::Print { .. } => "Print",
        Request::PatchManifest { .. } => "PatchManifest",
        Request::Spawn { .. } => "Spawn",
        Request::Delete { .. } => "Delete",
        Request::WriteBytes { .. } => "WriteBytes",
        Request::Copy { .. } => "Copy",
        Request::Run { .. } => "Run",
        Request::Unzip { .. } => "Unzip",
        Request::Download { .. } => "Download",
        Request::Fetch { .. } => "Fetch",
        Request::CreateSymlink { .. } => "CreateSymlink",
        Request::Collect { .. } => "Collect",
        Request::CreateManifest { .. } => "CreateManifest",
    }
}

fn parent_of(path: &str) -> Option<String> {
    let cut = path.rfind('/')?;
    if cut == 0 {
        if path.len() == 1 {
            None
        } else {
            Some("/".to_string())
        }
    } else {
        Some(path[..cut].to_string())
    }
}

fn plain(path: &str) -> String {
    if path.len() > 1 {
        path.trim_end_matches('/').to_string()
    } else {
        path.to_string()
    }
}

fn base_of(path: &str) -> String {
    match path.rfind('/') {
        Some(cut) => path[cut + 1..].to_string(),
        None => path.to_string(),
    }
}

fn quoted_words(line: &str) -> Vec<String> {
    let mut words = Vec::new();
    let mut rest = line;
    while let Some(start) = rest.find('"') {
        let after = &rest[start + 1..];
        let end = after.find('"').unwrap();
        words.push(after[..end].to_string());
        rest = &after[end + 1..];
    }
    words
}

impl World {
    fn new() -> World {
        let mut world = World::default();
        world.nodes.insert("/".to_string(), Node::Dir);
        world.nodes.insert("/tmp".to_string(), Node::Dir);
        world
    }

    fn dir(&mut self, path: &str) {
        let mut at = String::new();
        for part in path.split('/').filter(|p| !p.is_empty()) {
            at.push('/');
            at.push_str(part);
            self.nodes.entry(at.clone()).or_insert(Node::Dir);
        }
    }

    fn file(&mut self, path: &str, content: &[u8]) {
        if let Some(parent) = parent_of(path) {
            self.dir(&parent);
        }
        self.nodes.insert(path.to_string(), Node::File { content: content.to_vec(), mode: None });
    }

    fn link(&mut self, path: &str, target: &str) {
        if let Some(parent) = parent_of(path) {
            self.dir(&parent);
        }
        self.nodes.insert(path.to_string(), Node::Link { target: target.to_string() });
    }

    fn has(&self, path: &str) -> bool {
        self.nodes.contains_key(path)
    }

    fn content(&self, path: &str) -> Option<Vec<u8>> {
        match self.nodes.get(path) {
            Some(Node::File { content, .. }) => Some(content.clone()),
            _ => None,
        }
    }

    fn mode(&self, path: &str) -> Option<u32> {
        match self.nodes.get(path) {
            Some(Node::File { mode, .. }) => *mode,
            _ => None,
        }
    }

    fn follow(&self, path: &str) -> Option<&Node> {
        let mut at = path.to_string();
        for _ in 0..40 {
            match self.nodes.get(&at) {
                Some(Node::Link { target }) => at = target.clone(),
                other => return other,
            }
        }
        None
    }

    fn look(&self, path: &str) -> PathProbe {
        let found = self.follow(path);
        PathProbe {
            exists: found.is_some(),
            is_dir: matches!(found, Some(Node::Dir)),
            is_symlink: matches!(self.nodes.get(path), Some(Node::Link { .. })),
        }
    }

    fn below(&self, path: &str) -> Vec<String> {
        let prefix = format!("{}/", path.trim_end_matches('/'));
        self.nodes.keys().filter(|k| k.starts_with(&prefix)).cloned().collect()
    }

    fn remove_tree(&mut self, path: &str) {
        for key in self.below(path) {
            self.nodes.remove(&key);
        }
        self.nodes.remove(path);
    }

    fn copy_tree(&mut self, source: &str, destination: &str) {
        let node = self.nodes.get(source).cloned().unwrap();
        self.nodes.insert(destination.to_string(), node);
        for key in self.below(source) {
            let node = self.nodes.get(&key).cloned().unwrap();
            self.nodes.insert(format!("{}{}", destination, &key[source.len()..]), node);
        }
    }

    fn failed(message: &str) -> Response {
        Response::Failed { message: message.to_string() }
    }

    fn shell(&mut self, program: &str, working_dir: &str) -> Option<i32> {
        let text = String::from_utf8(self.content(program).unwrap()).unwrap();
        for line in text.lines() {
            let line = line.trim();
            if line.is_empty() || line.starts_with("#!") || line.starts_with("set -o") {
                continue;
            }
            if let Some(code) = line.strip_prefix("exit ") {
                return Some(code.parse().unwrap());
            } else if let Some(words) = line.strip_prefix("echo ") {
                self.output.push(words.to_string());
            } else if line.starts_with("cp -R ") {
                let words = quoted_words(line);
                let target = if self.look(&words[1]).is_dir {
                    format!("{}/{}", words[1], base_of(&words[0]))
                } else {
                    words[1].clone()
                };
                self.copy_tree(&words[0], &target);
            } else if line.starts_with("ln -s ") {
                let words = quoted_words(line);
                let at = if words[1].starts_with('/') {
                    words[1].clone()
                } else {
                    format!("{}/{}", working_dir, words[1])
                };
                if self.has(&at) {
                    return Some(1);
                }
                self.link(&at, &words[0]);
            } else if self.lenient {
                self.commands.push(line.to_string());
            } else {
                return Some(127);
            }
        }
        Some(0)
    }

    fn perform(&mut self, request: Request) -> Response {
        self.requests.push(kind(&request).to_string());
        if self.refuse.as_deref() == Some(kind(&request)) {
            return World::failed("refused");
        }
        let request = match request {
            Request::CreateDirAll { path } => Request::CreateDirAll { path: plain(&path) },
            Request::SetPermissions { path, mode } => {
                Request::SetPermissions { path: plain(&path), mode }
            }
            Request::Rename { source, destination } => {
                Request::Rename { source: plain(&source), destination: plain(&destination) }
            }
            other => other,
        };
        match request {
            Request::Probe { path } => Response::Probed { probe: self.look(&path) },
            Request::ListDir { path } => {
                if !self.look(&path).is_dir {
                    return World::failed("not a directory");
                }
                let prefix = format!("{}/", path);
                let entries = self
                    .nodes
                    .keys()
                    .filter(|k| k.starts_with(&prefix) && !k[prefix.len()..].contains('/'))
                    .cloned()
                    .collect();
                Response::Listing { entries }
            }
            Request::ReadFile { path } => match self.content(&path) {
                Some(bytes) => Response::Content { bytes },
                None => World::failed("no such file"),
            },
            Request::CreateDirAll { path } => {
                self.dir(&path);
                Response::Done
            }
            Request::RemoveTree { path } => match self.nodes.get(&path) {
                Some(Node::Dir) | Some(Node::Link { .. }) => {
                    if matches!(self.nodes.get(&path), Some(Node::Link { .. })) {
                        self.nodes.remove(&path);
                    } else {
                        self.remove_tree(&path);
                    }
                    Response::Done
                }
                _ => World::failed("not a directory"),
            },
            Request::RemoveFile { path } => match self.nodes.get(&path) {
                Some(Node::File { .. }) | Some(Node::Link { .. }) => {
                    self.nodes.remove(&path);
                    Response::Done
                }
                _ => World::failed("no such file"),
            },
            Request::CopyFile { source, destination } => match self.content(&source) {
                Some(content) => {
                    self.nodes.insert(destination, Node::File { content, mode: None });
                    Response::Done
                }
                None => World::failed("no such file"),
            },
            Request::Rename { source, destination } => {
                if !self.has(&source) {
                    return World::failed("no such file");
                }
                self.copy_tree(&source, &destination);
                self.remove_tree(&source);
                Response::Done
            }
            Request::WriteFile { path, content } => {
                let parent = parent_of(&path).unwrap();
                if !self.look(&parent).is_dir {
                    return World::failed("no such directory");
                }
                self.nodes.insert(path, Node::File { content, mode: None });
                Response::Done
            }
            Request::SetPermissions { path, mode } => match self.nodes.get_mut(&path) {
                Some(Node::File { mode: bits, .. }) => {
                    *bits = Some(mode);
                    Response::Done
                }
                Some(_) => Response::Done,
                None => World::failed("no such file"),
            },
            Request::AcquireWorkspace { prefix } => {
                let path = format!("/tmp/{}{}", prefix, self.workspaces);
                self.workspaces += 1;
                self.dir(&path);
                Response::Workspace { path }
            }
            Request::ReleaseWorkspace { path } => {
                self.remove_tree(&path);
                Response::Done
            }
            Request::HttpGet { url } => {
                self.downloads += 1;
                match self.pages.get(&url) {
                    Some((status, body)) => Response::Fetched { status: *status, body: body.clone() },
                    None => World::failed("connection refused"),
                }
            }
            Request::Print { line } => {
                self.printed.push(line);
                Response::Done
            }
            Request::PatchManifest { manifest, lib_path, crate_type, bin_path } => {
                if manifest.is_empty() {
                    return World::failed("no manifest");
                }
                let mut bytes = manifest;
                bytes.extend(format!("lib={} kind={} bin={}", lib_path, crate_type, bin_path).bytes());
                Response::Content { bytes }
            }
            Request::Spawn { program, working_dir, environment } => {
                self.spawned.push((
                    program.clone(),
                    working_dir.clone(),
                    environment.assignments().clone(),
                ));
                if self.signal {
                    return Response::Exited { code: None };
                }
                Response::Exited { code: self.shell(&program, &working_dir) }
            }
            Request::Delete { path } => {
                let result = self.drive(delete(&path));
                Response::Finished { result }
            }
            Request::WriteBytes { path, content } => {
                let result = self.drive(write_bytes(&content, &path));
                Response::Finished { result }
            }
            Request::Copy { platform, source, destination } => {
                let result = self.drive(copy(platform, &source, &destination));
                Response::Finished { result }
            }
            Request::Run { platform, script } => {
                let result = self.drive(run(platform, script));
                Response::Finished { result }
            }
            Request::Unzip { platform, archive, destination } => {
                let result = self.drive(unzip(platform, &archive, &destination));
                Response::Finished { result }
            }
            Request::Download { url, destination } => {
                let result = self.drive(download(&url, &destination));
                Response::Finished { result }
            }
            Request::Fetch { platform, url, name, parent_dir } => {
                let result = self.drive(fetch(platform, &url, &name, &parent_dir));
                Response::Finished { result }
            }
            Request::CreateSymlink { platform, source, target, working_dir } => {
                let result = self.drive(create_symlink(platform, &source, &target, &working_dir));
                Response::Finished { result }
            }
            Request::Collect { platform, output, sources } => {
                let result = self.drive(collect_into(platform, output, sources.into()));
                Response::Finished { result }
            }
            Request::CreateManifest { source_dir, working_dir, crate_type } => {
                let result = self.drive(create_in(&source_dir, &working_dir, &crate_type));
                Response::Finished { result }
            }
        }
    }

    fn drive<M: Machine>(&mut self, mut next: Next<M>) -> Result<(), Failure> {
        loop {
            match next {
                Next::Finish(result) => return result,
                Next::Continue(state, request) => {
                    let response = self.perform(request);
                    next = state.advance(response);
                }
            }
        }
    }

    fn count(&self, kind: &str) -> usize {
        self.requests.iter().filter(|k| k.as_str() == kind).count()
    }

    fn temporary(&self) -> Vec<String> {
        self.below("/tmp")
    }
}

fn archive(entries: &[(&str, Option<&[u8]>, Option<u32>)]) -> Vec<u8> {
    let mut writer = zip::ZipWriter::new(std::io::Cursor::new(Vec::new()));
    for (name, content, mode) in entries {
        let mut options =
            zip::write::FileOptions::default().compression_method(zip::CompressionMethod::Stored);
        if let Some(mode) = mode {
            options = options.unix_permissions(*mode);
        }
        match content {
            Some(bytes) => {
                writer.start_file(*name, options).unwrap();
                writer.write_all(bytes).unwrap();
            }
            None => writer.add_directory(*name, options).unwrap(),
        }
    }
    writer.finish().unwrap().into_inner()
}

fn request_of<S>(next: Next<S>) -> Request {
    match next {
        Next::Continue(_, request) => request,
        Next::Finish(result) => panic!("the operation has ended with {:?}", result),
    }
}

#[test]
fn delete_of_a_missing_path_only_looks() {
    let mut world = World::new();
    world.file("/work/keep.txt", b"k");
    let before = world.nodes.clone();
    assert_eq!(world.drive(delete("/work/missing")), Ok(()));
    assert_eq!(world.nodes, before);
    assert_eq!(world.requests, vec!["Probe"]);
}

#[test]
fn delete_removes_a_file() {
    let mut world = World::new();
    world.file("/work/a.txt", b"a");
    assert_eq!(world.drive(delete("/work/a.txt")), Ok(()));
    assert!(!world.has("/work/a.txt"));
    assert!(world.has("/work"));
    assert_eq!(world.requests, vec!["Probe", "RemoveFile"]);
}

#[test]
fn delete_removes_a_directory_with_all_it_holds() {
    let mut world = World::new();
    world.file("/work/out/debug/crust", b"bin");
    world.file("/work/other", b"o");
    assert_eq!(world.drive(delete("/work/out")), Ok(()));
    assert!(!world.has("/work/out"));
    assert!(!world.has("/work/out/debug/crust"));
    assert!(world.has("/work/other"));
    assert_eq!(world.requests, vec!["Probe", "RemoveTree"]);
}

#[test]
fn delete_removes_a_broken_symlink_and_is_idempotent() {
    let mut world = World::new();
    world.link("/work/link", "/nowhere");
    let probe = world.look("/work/link");
    assert!(!probe.exists && probe.is_symlink);
    assert_eq!(world.drive(delete("/work/link")), Ok(()));
    assert!(!world.has("/work/link"));
    assert_eq!(world.requests, vec!["Probe", "RemoveTree"]);
    world.requests.clear();
    let before = world.nodes.clone();
    assert_eq!(world.drive(delete("/work/link")), Ok(()));
    assert_eq!(world.requests, vec!["Probe"]);
    assert_eq!(world.nodes, before);
}

#[test]
fn delete_removes_a_symlink_and_keeps_what_it_leads_to() {
    let mut world = World::new();
    world.file("/real/file.txt", b"f");
    world.link("/work/link", "/real");
    assert_eq!(world.drive(delete("/work/link")), Ok(()));
    assert!(!world.has("/work/link"));
    assert!(world.has("/real/file.txt"));
}

#[test]
fn delete_steps_are_decided_by_the_probe() {
    let state = match delete("/x") {
        Next::Continue(state, request) => {
            assert_eq!(request, Request::Probe { path: "/x".to_string() });
            state
        }
        Next::Finish(_) => panic!("ended too early"),
    };
    let probe = PathProbe { exists: true, is_dir: false, is_symlink: false };
    match state.step(Response::Probed { probe }) {
        Next::Continue(state, request) => {
            assert_eq!(request, Request::RemoveFile { path: "/x".to_string() });
            assert_eq!(
                state.step(Response::Failed { message: "busy".to_string() }),
                Next::Finish(Err(Failure::Io {
                    path: "/x".to_string(),
                    message: "busy".to_string()
                }))
            );
        }
        Next::Finish(_) => panic!("ended too early"),
    }
}

#[test]
fn delete_rejects_a_response_that_is_no_answer() {
    let state = match delete("/x") {
        Next::Continue(state, _) => state,
        Next::Finish(_) => panic!("ended too early"),
    };
    assert_eq!(state.step(Response::Done), Next::Finish(Err(Failure::Unexpected)));
    let state = match delete("/x") {
        Next::Continue(state, _) => state,
        Next::Finish(_) => panic!("ended too early"),
    };
    assert_eq!(
        state.step(Response::Failed { message: "denied".to_string() }),
        Next::Finish(Err(Failure::Io { path: "/x".to_string(), message: "denied".to_string() }))
    );
}

#[test]
fn create_dir_asks_for_the_whole_path() {
    let request = request_of(create_dir("/a/b/c"));
    assert_eq!(request, Request::CreateDirAll { path: "/a/b/c".to_string() });
    let mut world = World::new();
    assert_eq!(world.drive(create_dir("/a/b/c")), Ok(()));
    assert!(world.has("/a") && world.has("/a/b") && world.has("/a/b/c"));
    assert_eq!(world.drive(create_dir("/a/b/c")), Ok(()));
}

#[test]
fn rename_moves_the_source() {
    let mut world = World::new();
    world.file("/a/old/f", b"1");
    assert_eq!(world.drive(rename("/a/old", "/a/new")), Ok(()));
    assert!(!world.has("/a/old"));
    assert_eq!(world.content("/a/new/f"), Some(b"1".to_vec()));
    assert_eq!(
        world.drive(rename("/a/none", "/a/other")),
        Err(Failure::Io { path: "/a/none".to_string(), message: "no such file".to_string() })
    );
}

#[test]
fn apply_permissions_sets_the_mode_on_posix() {
    let request = request_of(apply_permissions(Platform::Posix, "/a/run.sh", 0o755));
    assert_eq!(request, Request::SetPermissions { path: "/a/run.sh".to_string(), mode: 0o755 });
    let mut world = World::new();
    world.file("/a/run.sh", b"#!");
    assert_eq!(world.drive(apply_permissions(Platform::Posix, "/a/run.sh", 0o755)), Ok(()));
    assert_eq!(world.mode("/a/run.sh"), Some(0o755));
}

#[test]
fn apply_permissions_does_nothing_on_windows() {
    assert_eq!(apply_permissions(Platform::Windows, "/a/run.bat", 0o755), Next::Finish(Ok(())));
}

#[test]
fn write_bytes_creates_the_directory_then_the_file() {
    let mut world = World::new();
    assert_eq!(world.drive(write_bytes(b"hello", "/deep/down/file.bin")), Ok(()));
    assert_eq!(world.content("/deep/down/file.bin"), Some(b"hello".to_vec()));
    assert_eq!(world.requests, vec!["CreateDirAll", "WriteFile"]);
    let first = request_of(write_bytes(b"hello", "/deep/down/file.bin"));
    assert_eq!(first, Request::CreateDirAll { path: "/deep/down".to_string() });
}

#[test]
fn write_bytes_overwrites() {
    let mut world = World::new();
    world.file("/a/f", b"old content");
    assert_eq!(world.drive(write_bytes(b"new", "/a/f")), Ok(()));
    assert_eq!(world.content("/a/f"), Some(b"new".to_vec()));
}

#[test]
fn write_bytes_needs_a_parent() {
    assert_eq!(
        write_bytes(b"x", "/"),
        Next::Finish(Err(Failure::MissingParent { path: "/".to_string() }))
    );
    assert_eq!(
        write_bytes(b"x", ""),
        Next::Finish(Err(Failure::MissingParent { path: "".to_string() }))
    );
}

#[test]
fn write_string_writes_utf8() {
    let mut world = World::new();
    assert_eq!(world.drive(write_string("gr\u{fc}\u{df}e", "/a/text")), Ok(()));
    assert_eq!(world.content("/a/text"), Some("gr\u{fc}\u{df}e".as_bytes().to_vec()));
}

#[test]
fn write_bytes_hands_on_a_failure_to_create_the_directory() {
    let mut world = World::new();
    world.refuse = Some("CreateDirAll".to_string());
    assert_eq!(
        world.drive(write_bytes(b"x", "/a/b")),
        Err(Failure::Io { path: "/a".to_string(), message: "refused".to_string() })
    );
    assert!(!world.has("/a/b"));
}

#[test]
fn copy_of_a_file_is_one_file_copy() {
    let mut world = World::new();
    world.file("/a/f", b"data");
    world.dir("/b");
    assert_eq!(world.drive(copy(Platform::Posix, "/a/f", "/b/g")), Ok(()));
    assert_eq!(world.content("/b/g"), Some(b"data".to_vec()));
    assert_eq!(world.requests, vec!["Probe", "CopyFile"]);
}

#[test]
fn copy_of_a_missing_file_fails() {
    let mut world = World::new();
    assert_eq!(
        world.drive(copy(Platform::Posix, "/a/none", "/b/g")),
        Err(Failure::Io { path: "/a/none".to_string(), message: "no such file".to_string() })
    );
}

fn directory_copy_script(platform: Platform, source: &str, destination: &str) -> Script {
    let state = match copy(platform, source, destination) {
        Next::Continue(state, _) => state,
        Next::Finish(_) => panic!("ended too early"),
    };
    let probe = PathProbe { exists: true, is_dir: true, is_symlink: false };
    match state.step(Response::Probed { probe }) {
        Next::Continue(_, Request::Run { platform: on, script }) => {
            assert_eq!(on, platform);
            script
        }
        other => panic!("no script: {:?}", other),
    }
}

#[test]
fn copy_of_a_directory_runs_cp_on_posix() {
    let script = directory_copy_script(Platform::Posix, "/a/my dir", "/b");
    assert_eq!(script.content, "cp -R \"/a/my dir\" \"/b\"");
    assert_eq!(script.working_dir, None);
    assert!(script.environment.assignments().is_empty());
}

#[test]
fn copy_of_a_directory_runs_xcopy_on_windows() {
    let script = directory_copy_script(Platform::Windows, "/a/dir", "/b");
    assert_eq!(script.content, "xcopy /E /H /I \"/a/dir\" \"/b/dir\"");
}

#[test]
fn copy_quotes_paths_as_debug_formatting_does() {
    let script = directory_copy_script(Platform::Posix, "/a/say \"hi\"", "/b\\c");
    assert_eq!(script.content, "cp -R \"/a/say \\\"hi\\\"\" \"/b\\\\c\"");
}

#[test]
fn copy_of_a_directory_without_a_name_fails_on_windows() {
    let state = match copy(Platform::Windows, "/", "/b") {
        Next::Continue(state, _) => state,
        Next::Finish(_) => panic!("ended too early"),
    };
    let probe = PathProbe { exists: true, is_dir: true, is_symlink: false };
    assert_eq!(
        state.step(Response::Probed { probe }),
        Next::Finish(Err(Failure::MissingFileName { path: "/".to_string() }))
    );
}

#[test]
fn copy_of_a_directory_copies_all_it_holds() {
    let mut world = World::new();
    world.file("/a/dir/x/y.txt", b"y");
    world.dir("/b");
    assert_eq!(world.drive(copy(Platform::Posix, "/a/dir", "/b")), Ok(()));
    assert_eq!(world.content("/b/dir/x/y.txt"), Some(b"y".to_vec()));
    assert!(world.temporary().is_empty());
}

#[test]
fn create_symlink_replaces_a_regular_file() {
    let mut world = World::new();
    world.file("/out/assets", b"not a link");
    world.dir("/src/assets");
    assert_eq!(
        world.drive(create_symlink(Platform::Posix, "/src/assets", "/out/assets", "/out")),
        Ok(())
    );
    assert_eq!(
        world.nodes.get("/out/assets"),
        Some(&Node::Link { target: "/src/assets".to_string() })
    );
    let removed = world.requests.iter().position(|k| k == "RemoveFile").unwrap();
    let spawned = world.requests.iter().position(|k| k == "Spawn").unwrap();
    assert!(removed < spawned);
    assert!(world.temporary().is_empty());
}

#[test]
fn create_symlink_replaces_a_file_at_a_relative_target() {
    let mut world = World::new();
    world.file("/out/assets", b"not a link");
    world.file("/assets", b"of the same name, elsewhere");
    world.file("/src/assets/a.png", b"png");
    assert_eq!(
        world.drive(create_symlink(Platform::Posix, "/src/assets", "assets", "/out")),
        Ok(())
    );
    assert_eq!(
        world.nodes.get("/out/assets"),
        Some(&Node::Link { target: "/src/assets".to_string() })
    );
    assert_eq!(world.content("/assets"), Some(b"of the same name, elsewhere".to_vec()));
    assert!(world.look("/out/assets").is_dir);
    assert_eq!(world.requests[..3], ["Delete", "Probe", "RemoveFile"]);
}

#[test]
fn create_symlink_replaces_whatever_stands_at_its_place() {
    let mut world = World::new();
    world.file("/out/a/deep/file", b"tree");
    world.link("/out/b", "/nowhere");
    world.link("/out/c", "/src");
    world.dir("/src");
    for name in ["a", "b", "c", "d"] {
        assert_eq!(world.drive(create_symlink(Platform::Posix, "/src", name, "/out")), Ok(()));
        assert_eq!(
            world.nodes.get(&format!("/out/{}", name)),
            Some(&Node::Link { target: "/src".to_string() })
        );
    }
    assert!(!world.has("/out/a/deep"));
    assert!(!world.has("/out/a/src"));
    assert!(world.temporary().is_empty());
}

#[test]
fn create_symlink_runs_ln_in_the_working_directory() {
    let state = match create_symlink(Platform::Posix, "/src/assets", "assets", "/out") {
        Next::Continue(state, request) => {
            assert_eq!(request, Request::Delete { path: "/out/assets".to_string() });
            state
        }
        Next::Finish(_) => panic!("ended too early"),
    };
    match state.step(Response::Finished { result: Ok(()) }) {
        Next::Continue(_, Request::Run { platform, script }) => {
            assert_eq!(platform, Platform::Posix);
            assert_eq!(script.content, "ln -s \"/src/assets\" \"assets\"");
            assert_eq!(script.working_dir, Some("/out".to_string()));
        }
        other => panic!("no script: {:?}", other),
    }
}

#[test]
fn create_symlink_runs_mklink_on_windows() {
    let state = match create_symlink(Platform::Windows, "C:/src", "link", "C:/out") {
        Next::Continue(state, _) => state,
        Next::Finish(_) => panic!("ended too early"),
    };
    match state.step(Response::Done) {
        Next::Continue(_, Request::Run { script, .. }) => {
            assert_eq!(script.content, "mklink /D \"link\" \"C:/src\"");
        }
        other => panic!("no script: {:?}", other),
    }
}

#[test]
fn create_symlink_stops_when_the_target_cannot_be_deleted() {
    let state = match create_symlink(Platform::Posix, "/src", "/link", "/") {
        Next::Continue(state, _) => state,
        Next::Finish(_) => panic!("ended too early"),
    };
    let failure = Failure::Io { path: "/link".to_string(), message: "busy".to_string() };
    assert_eq!(
        state.step(Response::Finished {
            result: Err(Failure::Io { path: "/link".to_string(), message: "busy".to_string() })
        }),
        Next::Finish(Err(failure))
    );
}

#[test]
fn unzip_unpacks_files_and_directories_with_their_modes() {
    let bytes = archive(&[
        ("top/", None, Some(0o755)),
        ("top/run.sh", Some(b"#!/bin/sh\n"), Some(0o755)),
        ("top/sub/read.txt", Some(b"text"), Some(0o644)),
        ("plain.bin", Some(b"\x00\x01"), None),
    ]);
    let mut world = World::new();
    world.file("/in/a.zip", &bytes);
    assert_eq!(world.drive(unzip(Platform::Posix, "/in/a.zip", "/out/x")), Ok(()));
    assert_eq!(world.nodes.get("/out/x/top"), Some(&Node::Dir));
    assert_eq!(world.content("/out/x/top/run.sh"), Some(b"#!/bin/sh\n".to_vec()));
    assert_eq!(world.mode("/out/x/top/run.sh").map(|m| m & 0o777), Some(0o755));
    assert_eq!(world.content("/out/x/top/sub/read.txt"), Some(b"text".to_vec()));
    assert_eq!(world.mode("/out/x/top/sub/read.txt").map(|m| m & 0o777), Some(0o644));
    assert_eq!(world.content("/out/x/plain.bin"), Some(vec![0, 1]));
}

#[test]
fn unzip_sets_no_modes_on_windows() {
    let bytes = archive(&[("run.sh", Some(b"x"), Some(0o755))]);
    let mut world = World::new();
    world.file("/in/a.zip", &bytes);
    assert_eq!(world.drive(unzip(Platform::Windows, "/in/a.zip", "/out")), Ok(()));
    assert_eq!(world.content("/out/run.sh"), Some(b"x".to_vec()));
    assert_eq!(world.count("SetPermissions"), 0);
}

#[test]
fn unzip_passes_over_names_that_leave_the_destination() {
    let bytes = archive(&[
        ("../evil.txt", Some(b"evil"), None),
        ("/etc/passwd", Some(b"root"), None),
        ("good.txt", Some(b"good"), None),
    ]);
    let mut world = World::new();
    world.file("/in/a.zip", &bytes);
    assert_eq!(world.drive(unzip(Platform::Posix, "/in/a.zip", "/out/x")), Ok(()));
    assert_eq!(world.content("/out/x/good.txt"), Some(b"good".to_vec()));
    assert!(!world.has("/out/evil.txt"));
    assert!(!world.has("/etc/passwd"));
    assert_eq!(world.count("WriteFile"), 1);
}

#[test]
fn unzip_passes_over_a_damaged_entry_whose_name_leaves_the_destination() {
    let mut bytes = archive(&[
        ("../evil.txt", Some(b"eeeeeeeeeeeeeeee"), None),
        ("good.txt", Some(b"good"), None),
    ]);
    let at = bytes.windows(16).position(|w| w == b"eeeeeeeeeeeeeeee").unwrap();
    bytes[at] = b'x';
    let mut world = World::new();
    world.file("/in/a.zip", &bytes);
    assert_eq!(world.drive(unzip(Platform::Posix, "/in/a.zip", "/out/x")), Ok(()));
    assert_eq!(world.content("/out/x/good.txt"), Some(b"good".to_vec()));
    assert_eq!(world.count("WriteFile"), 1);
}

#[test]
fn unzip_of_an_empty_archive_creates_the_destination() {
    let bytes = archive(&[]);
    let mut world = World::new();
    world.file("/in/a.zip", &bytes);
    assert_eq!(world.drive(unzip(Platform::Posix, "/in/a.zip", "/out/x")), Ok(()));
    assert_eq!(world.nodes.get("/out/x"), Some(&Node::Dir));
    assert_eq!(world.requests, vec!["CreateDirAll", "ReadFile"]);
}

#[test]
fn unzip_rejects_what_is_no_archive() {
    let mut world = World::new();
    world.file("/in/a.zip", b"this is not a zip archive");
    assert_eq!(
        world.drive(unzip(Platform::Posix, "/in/a.zip", "/out/x")),
        Err(Failure::BadArchive)
    );
    assert_eq!(world.count("WriteFile"), 0);
}

#[test]
fn unzip_rejects_a_damaged_entry() {
    let mut bytes = archive(&[("a.txt", Some(b"aaaaaaaaaaaaaaaa"), None)]);
    let at = bytes.windows(16).position(|w| w == b"aaaaaaaaaaaaaaaa").unwrap();
    bytes[at] = b'b';
    let mut world = World::new();
    world.file("/in/a.zip", &bytes);
    assert_eq!(
        world.drive(unzip(Platform::Posix, "/in/a.zip", "/out/x")),
        Err(Failure::BadArchive)
    );
}

#[test]
fn unzip_fails_when_the_archive_is_missing() {
    let mut world = World::new();
    assert_eq!(
        world.drive(unzip(Platform::Posix, "/in/none.zip", "/out/x")),
        Err(Failure::Io { path: "/in/none.zip".to_string(), message: "no such file".to_string() })
    );
}

#[test]
fn run_of_exit_1_fails_with_the_code() {
    let mut world = World::new();
    assert_eq!(
        world.drive(run(Platform::Posix, Script::new("exit 1"))),
        Err(Failure::NonZeroExit { code: 1 })
    );
    assert!(world.temporary().is_empty());
}

#[test]
fn run_of_echo_hello_prints_and_succeeds() {
    let mut world = World::new();
    assert_eq!(world.drive(run(Platform::Posix, Script::new("echo hello"))), Ok(()));
    assert_eq!(world.output, vec!["hello"]);
    assert!(world.temporary().is_empty());
    assert_eq!(world.requests.last().map(|k| k.as_str()), Some("ReleaseWorkspace"));
}

#[test]
fn run_on_windows_prints_and_succeeds() {
    let mut world = World::new();
    assert_eq!(world.drive(run(Platform::Windows, Script::new("echo hello"))), Ok(()));
    assert_eq!(world.output, vec!["hello"]);
    assert_eq!(world.count("SetPermissions"), 0);
    assert_eq!(world.spawned[0].0, "/tmp/crust0/script.bat");
}

#[test]
fn run_writes_a_strict_script_file_and_marks_it_executable() {
    let state = match run(Platform::Posix, Script::new("  make all\n")) {
        Next::Continue(state, request) => {
            assert_eq!(request, Request::AcquireWorkspace { prefix: "crust".to_string() });
            state
        }
        Next::Finish(_) => panic!("ended too early"),
    };
    let state = match state.step(Response::Workspace { path: "/tmp/crustAB".to_string() }) {
        Next::Continue(state, request) => {
            let expected = "#!/usr/bin/env bash\n\nset -o errexit\nset -o pipefail\nset -o nounset\n\nmake all";
            assert_eq!(
                request,
                Request::WriteBytes {
                    path: "/tmp/crustAB/script.sh".to_string(),
                    content: expected.as_bytes().to_vec()
                }
            );
            state
        }
        Next::Finish(_) => panic!("ended too early"),
    };
    let state = match state.step(Response::Finished { result: Ok(()) }) {
        Next::Continue(state, request) => {
            assert_eq!(
                request,
                Request::SetPermissions { path: "/tmp/crustAB/script.sh".to_string(), mode: 0o755 }
            );
            state
        }
        Next::Finish(_) => panic!("ended too early"),
    };
    let state = match state.step(Response::Done) {
        Next::Continue(state, request) => {
            assert_eq!(
                request,
                Request::Spawn {
                    program: "/tmp/crustAB/script.sh".to_string(),
                    working_dir: "/tmp/crustAB".to_string(),
                    environment: Environment::new()
                }
            );
            state
        }
        Next::Finish(_) => panic!("ended too early"),
    };
    let state = match state.step(Response::Exited { code: Some(0) }) {
        Next::Continue(state, request) => {
            assert_eq!(request, Request::ReleaseWorkspace { path: "/tmp/crustAB".to_string() });
            state
        }
        Next::Finish(_) => panic!("ended too early"),
    };
    assert_eq!(state.step(Response::Done), Next::Finish(Ok(())));
}

#[test]
fn run_writes_a_batch_file_as_it_is_on_windows() {
    let state = match run(Platform::Windows, Script::new("dir")) {
        Next::Continue(state, _) => state,
        Next::Finish(_) => panic!("ended too early"),
    };
    let state = match state.step(Response::Workspace { path: "T".to_string() }) {
        Next::Continue(state, request) => {
            assert_eq!(
                request,
                Request::WriteBytes {
                    path: std::path::Path::new("T").join("script.bat").to_str().unwrap().to_string(),
                    content: b"dir".to_vec()
                }
            );
            state
        }
        Next::Finish(_) => panic!("ended too early"),
    };
    match state.step(Response::Finished { result: Ok(()) }) {
        Next::Continue(_, Request::Spawn { .. }) => {}
        other => panic!("no spawn: {:?}", other),
    }
}

#[test]
fn run_uses_the_working_directory_and_environment_of_the_script() {
    let mut environment = Environment::new();
    environment.insert("EMCC_CFLAGS", "-O2");
    let script = Script::new("echo built").working_dir("/project").environment(&environment);
    let mut world = World::new();
    world.dir("/project");
    assert_eq!(world.drive(run(Platform::Posix, script)), Ok(()));
    assert_eq!(world.spawned.len(), 1);
    assert_eq!(world.spawned[0].0, "/tmp/crust0/script.sh");
    assert_eq!(world.spawned[0].1, "/project");
    assert_eq!(world.spawned[0].2, vec![("EMCC_CFLAGS".to_string(), "-O2".to_string())]);
}

#[test]
fn run_without_an_exit_code_fails() {
    let mut world = World::new();
    world.signal = true;
    assert_eq!(
        world.drive(run(Platform::Posix, Script::new("sleep 100"))),
        Err(Failure::NoExitCode)
    );
    assert!(world.temporary().is_empty());
}

#[test]
fn run_removes_the_workspace_when_the_script_cannot_be_written() {
    let mut world = World::new();
    world.refuse = Some("WriteFile".to_string());
    let result = world.drive(run(Platform::Posix, Script::new("echo hello")));
    assert_eq!(
        result,
        Err(Failure::Io {
            path: "/tmp/crust0/script.sh".to_string(),
            message: "refused".to_string()
        })
    );
    assert_eq!(world.count("Spawn"), 0);
    assert!(world.temporary().is_empty());
}

#[test]
fn run_removes_the_workspace_when_the_script_cannot_be_started() {
    let mut world = World::new();
    world.refuse = Some("Spawn".to_string());
    let result = world.drive(run(Platform::Posix, Script::new("echo hello")));
    assert!(matches!(result, Err(Failure::Io { .. })));
    assert!(world.temporary().is_empty());
}

#[test]
fn run_without_a_workspace_fails_at_once() {
    let mut world = World::new();
    world.refuse = Some("AcquireWorkspace".to_string());
    assert_eq!(
        world.drive(run(Platform::Posix, Script::new("echo hello"))),
        Err(Failure::Io { path: "crust".to_string(), message: "refused".to_string() })
    );
    assert_eq!(world.requests, vec!["AcquireWorkspace"]);
}

#[test]
fn run_reports_a_failed_cleanup_only_after_success() {
    let mut world = World::new();
    world.refuse = Some("ReleaseWorkspace".to_string());
    assert_eq!(
        world.drive(run(Platform::Posix, Script::new("echo hello"))),
        Err(Failure::Io { path: "/tmp/crust0".to_string(), message: "refused".to_string() })
    );
    let mut world = World::new();
    world.refuse = Some("ReleaseWorkspace".to_string());
    assert_eq!(
        world.drive(run(Platform::Posix, Script::new("exit 7"))),
        Err(Failure::NonZeroExit { code: 7 })
    );
}

#[test]
fn download_writes_the_body_of_a_success() {
    let mut world = World::new();
    world.pages.insert("https://example.test/a".to_string(), (200, b"body".to_vec()));
    assert_eq!(world.drive(download("https://example.test/a", "/dl/a.bin")), Ok(()));
    assert_eq!(world.content("/dl/a.bin"), Some(b"body".to_vec()));
}

#[test]
fn download_fails_on_a_status_that_is_no_success() {
    for status in [100u16, 199, 300, 301, 404, 500] {
        let mut world = World::new();
        world.pages.insert("https://example.test/a".to_string(), (status, b"body".to_vec()));
        assert_eq!(
            world.drive(download("https://example.test/a", "/dl/a.bin")),
            Err(Failure::Http { status })
        );
        assert!(!world.has("/dl/a.bin"));
    }
    for status in [200u16, 204, 299] {
        let mut world = World::new();
        world.pages.insert("https://example.test/a".to_string(), (status, b"body".to_vec()));
        assert_eq!(world.drive(download("https://example.test/a", "/dl/a.bin")), Ok(()));
    }
}

#[test]
fn download_fails_when_the_address_cannot_be_reached() {
    let mut world = World::new();
    assert_eq!(
        world.drive(download("https://example.test/none", "/dl/a.bin")),
        Err(Failure::Io {
            path: "https://example.test/none".to_string(),
            message: "connection refused".to_string()
        })
    );
}

fn world_with_archive() -> World {
    let mut world = World::new();
    let bytes = archive(&[
        ("archive-v1/", None, Some(0o755)),
        ("archive-v1/file.txt", Some(b"content"), Some(0o644)),
    ]);
    world.pages.insert("https://example.test/archive.zip".to_string(), (200, bytes));
    world
}

#[test]
fn fetch_puts_the_top_directory_under_the_logical_name() {
    let mut world = world_with_archive();
    let result = world.drive(fetch(
        Platform::Posix,
        "https://example.test/archive.zip",
        "mylib",
        "/tmp/cache",
    ));
    assert_eq!(result, Ok(()));
    assert_eq!(world.content("/tmp/cache/mylib/file.txt"), Some(b"content".to_vec()));
    assert!(!world.has("/tmp/cache/archive-v1"));
    assert_eq!(world.temporary(), vec!["/tmp/cache", "/tmp/cache/mylib", "/tmp/cache/mylib/file.txt"]);
}

#[test]
fn fetch_downloads_once_for_two_calls() {
    let mut world = world_with_archive();
    let first = world.drive(fetch(
        Platform::Posix,
        "https://example.test/archive.zip",
        "mylib",
        "/tmp/cache",
    ));
    assert_eq!(first, Ok(()));
    assert_eq!(world.downloads, 1);
    world.requests.clear();
    let second = world.drive(fetch(
        Platform::Posix,
        "https://example.test/archive.zip",
        "mylib",
        "/tmp/cache",
    ));
    assert_eq!(second, Ok(()));
    assert_eq!(world.downloads, 1);
    assert_eq!(world.requests, vec!["Probe", "Print"]);
    assert_eq!(
        world.printed,
        vec!["Destination already exists, skipping download: \"/tmp/cache/mylib\""]
    );
}

#[test]
fn fetch_takes_any_existing_directory_for_the_artifact() {
    let mut world = World::new();
    world.dir("/tmp/cache/mylib");
    let result =
        world.drive(fetch(Platform::Posix, "https://example.test/none.zip", "mylib", "/tmp/cache"));
    assert_eq!(result, Ok(()));
    assert_eq!(world.downloads, 0);
    assert_eq!(world.count("AcquireWorkspace"), 0);
    world.refuse = Some("Print".to_string());
    let again =
        world.drive(fetch(Platform::Posix, "https://example.test/none.zip", "mylib", "/tmp/cache"));
    assert_eq!(again, Ok(()));
}

#[test]
fn fetch_of_an_empty_archive_fails_and_cleans_up() {
    let mut world = World::new();
    world.pages.insert("https://example.test/empty.zip".to_string(), (200, archive(&[])));
    let result =
        world.drive(fetch(Platform::Posix, "https://example.test/empty.zip", "mylib", "/cache"));
    assert_eq!(result, Err(Failure::EmptyArchive));
    assert!(world.temporary().is_empty());
    assert!(!world.has("/cache/mylib"));
}

#[test]
fn fetch_hands_on_the_status_and_cleans_up() {
    let mut world = World::new();
    world.pages.insert("https://example.test/gone.zip".to_string(), (404, Vec::new()));
    let result =
        world.drive(fetch(Platform::Posix, "https://example.test/gone.zip", "mylib", "/cache"));
    assert_eq!(result, Err(Failure::Http { status: 404 }));
    assert!(world.temporary().is_empty());
    assert_eq!(world.requests.last().map(|k| k.as_str()), Some("ReleaseWorkspace"));
}

#[test]
fn fetch_of_a_corrupt_archive_fails_and_cleans_up() {
    let mut world = World::new();
    world.pages.insert("https://example.test/bad.zip".to_string(), (200, b"garbage".to_vec()));
    let result =
        world.drive(fetch(Platform::Posix, "https://example.test/bad.zip", "mylib", "/cache"));
    assert_eq!(result, Err(Failure::BadArchive));
    assert!(world.temporary().is_empty());
}

#[test]
fn collect_copies_files_under_their_names_and_directories_as_such() {
    let context = Context::new("/project", Target::MacOSConsole, Variant::Debug);
    let mut world = World::new();
    world.file("/build/debug/crust", b"binary");
    world.file("/project/crust-main/assets/models/crate.obj", b"obj");
    let mut sources = VecDeque::new();
    sources.push_back("/build/debug/crust".to_string());
    sources.push_back("/project/crust-main/assets".to_string());
    assert_eq!(world.drive(collect(Platform::Posix, &context, sources)), Ok(()));
    assert_eq!(
        world.content("/project/macos-console/out/debug/crust"),
        Some(b"binary".to_vec())
    );
    assert_eq!(
        world.content("/project/macos-console/out/debug/assets/models/crate.obj"),
        Some(b"obj".to_vec())
    );
}

#[test]
fn collect_of_nothing_creates_the_output_directory() {
    let context = Context::new("/project", Target::Windows, Variant::Release);
    let mut world = World::new();
    assert_eq!(world.drive(collect(Platform::Posix, &context, VecDeque::new())), Ok(()));
    assert_eq!(world.nodes.get("/project/windows/out/release"), Some(&Node::Dir));
    assert_eq!(world.requests, vec!["CreateDirAll"]);
}

#[test]
fn collect_stops_at_a_source_without_a_name() {
    let context = Context::new("/project", Target::Windows, Variant::Release);
    let mut world = World::new();
    world.file("/build/a", b"a");
    let mut sources = VecDeque::new();
    sources.push_back("/build/missing/..".to_string());
    sources.push_back("/build/a".to_string());
    assert_eq!(
        world.drive(collect(Platform::Posix, &context, sources)),
        Err(Failure::MissingFileName { path: "/build/missing/..".to_string() })
    );
    assert!(!world.has("/project/windows/out/release/a"));
}

#[test]
fn collect_stops_at_the_first_failure() {
    let context = Context::new("/project", Target::Windows, Variant::Release);
    let mut world = World::new();
    world.file("/build/b", b"b");
    let mut sources = VecDeque::new();
    sources.push_back("/build/none".to_string());
    sources.push_back("/build/b".to_string());
    assert_eq!(
        world.drive(collect(Platform::Posix, &context, sources)),
        Err(Failure::Io { path: "/build/none".to_string(), message: "no such file".to_string() })
    );
    assert!(!world.has("/project/windows/out/release/b"));
}

#[test]
fn clean_deletes_the_output_directory() {
    let context = Context::new("/project", Target::Android, Variant::Debug);
    assert_eq!(output_dir(&context), "/project/android/out/debug");
    let mut world = World::new();
    world.file("/project/android/out/debug/old", b"old");
    world.file("/project/android/out/release/kept", b"kept");
    assert_eq!(world.drive(clean(&context)), Ok(()));
    assert!(!world.has("/project/android/out/debug"));
    assert!(world.has("/project/android/out/release/kept"));
}

#[test]
fn plan_is_given_up_at_the_first_failure() {
    let mut requests = VecDeque::new();
    requests.push_back(Request::CreateDirAll { path: "/a".to_string() });
    requests.push_back(Request::RemoveFile { path: "/a/none".to_string() });
    requests.push_back(Request::CreateDirAll { path: "/b".to_string() });
    let mut world = World::new();
    assert_eq!(
        world.drive(Plan::start(requests)),
        Err(Failure::Io { path: "/a/none".to_string(), message: "no such file".to_string() })
    );
    assert!(world.has("/a"));
    assert!(!world.has("/b"));
}

#[test]
fn plan_of_nothing_succeeds() {
    assert_eq!(Plan::start(VecDeque::new()), Next::Finish(Ok(())));
}

#[test]
fn recipe_passes_over_guarded_stages_when_the_path_exists() {
    let stages = || -> VecDeque<Stage> {
        vec![
            Stage::Unless { path: "/made".to_string(), count: 2 },
            Stage::Do { request: Request::CreateDirAll { path: "/made".to_string() } },
            Stage::Do { request: Request::CreateDirAll { path: "/made/inner".to_string() } },
            Stage::Do { request: Request::CreateDirAll { path: "/after".to_string() } },
        ]
        .into()
    };
    let mut world = World::new();
    assert_eq!(world.drive(Recipe::start(stages())), Ok(()));
    assert_eq!(world.requests, vec!["Probe", "CreateDirAll", "CreateDirAll", "CreateDirAll"]);
    world.requests.clear();
    world.nodes.remove("/after");
    assert_eq!(world.drive(Recipe::start(stages())), Ok(()));
    assert_eq!(world.requests, vec!["Probe", "CreateDirAll"]);
    assert!(world.has("/after"));
}

#[test]
fn recipe_passes_over_no_more_than_there_is() {
    let stages: VecDeque<Stage> = vec![
        Stage::Unless { path: "/tmp".to_string(), count: 5 },
        Stage::Do { request: Request::CreateDirAll { path: "/never".to_string() } },
    ]
    .into();
    let mut world = World::new();
    assert_eq!(world.drive(Recipe::start(stages)), Ok(()));
    assert!(!world.has("/never"));
}

#[test]
fn recipe_ends_at_the_first_failure() {
    let stages: VecDeque<Stage> = vec![
        Stage::Do { request: Request::RemoveFile { path: "/none".to_string() } },
        Stage::Do { request: Request::CreateDirAll { path: "/never".to_string() } },
    ]
    .into();
    let mut world = World::new();
    assert_eq!(
        world.drive(Recipe::start(stages)),
        Err(Failure::Io { path: "/none".to_string(), message: "no such file".to_string() })
    );
    assert!(!world.has("/never"));
}

#[test]
fn windows_build_fetches_compiles_and_collects() {
    let mut world = World::new();
    world.lenient = true;
    let sdl2 = archive(&[("SDL2-2.0.14/", None, None), ("SDL2-2.0.14/lib/x64/SDL2.dll", Some(b"sdl"), None)]);
    let image = archive(&[
        ("SDL2_image-2.0.5/", None, None),
        ("SDL2_image-2.0.5/lib/x64/SDL2_image.dll", Some(b"image"), None),
        ("SDL2_image-2.0.5/lib/x64/libpng16-16.dll", Some(b"png"), None),
        ("SDL2_image-2.0.5/lib/x64/zlib1.dll", Some(b"zlib"), None),
    ]);
    world.pages.insert(windows::SDL2_URL.to_string(), (200, sdl2));
    world.pages.insert(windows::SDL2_IMAGE_URL.to_string(), (200, image));
    world.file("/p/windows/.rust-build/rust/release/crust.exe", b"exe");
    world.file("/p/windows/out/release/stale.txt", b"stale");
    let context = Context::new("/p", Target::Windows, Variant::Release);
    assert_eq!(world.drive(windows::build(Platform::Posix, &context)), Ok(()));
    assert_eq!(world.printed, context.summary());
    assert_eq!(world.count("Print"), 8);
    assert_eq!(world.requests[..8], vec!["Print"; 8][..]);
    assert_eq!(world.downloads, 2);
    assert_eq!(
        world.commands,
        vec![
            "cargo rustc --release --manifest-path \"/p/crust-main/Cargo.toml\" --bin crust --target-dir \"/p/windows/.rust-build/rust\" -- -L \"/p/windows/.rust-build/sdl2/lib/x64\" -L \"/p/windows/.rust-build/sdl2-image/lib/x64\""
        ]
    );
    assert_eq!(world.content("/p/windows/out/release/crust.exe"), Some(b"exe".to_vec()));
    assert_eq!(world.content("/p/windows/out/release/SDL2.dll"), Some(b"sdl".to_vec()));
    assert_eq!(world.content("/p/windows/out/release/SDL2_image.dll"), Some(b"image".to_vec()));
    assert_eq!(world.content("/p/windows/out/release/libpng16-16.dll"), Some(b"png".to_vec()));
    assert_eq!(world.content("/p/windows/out/release/zlib1.dll"), Some(b"zlib".to_vec()));
    assert!(!world.has("/p/windows/out/release/stale.txt"));
    assert!(world.temporary().is_empty());
}

#[test]
fn print_summary_shows_every_line_in_order() {
    let context = Context::new("/p", Target::Emscripten, Variant::Release);
    let mut world = World::new();
    assert_eq!(world.drive(context.print_summary()), Ok(()));
    assert_eq!(
        world.printed,
        vec![
            "---------------------------------------------",
            "Assets dir:          \"/p/crust-main/assets\"",
            "Working dir:         \"/p/emscripten/.rust-build\"",
            "Rust build dir:      \"/p/emscripten/.rust-build/rust\"",
            "Variant:             Release",
            "Target home dir:     \"/p/emscripten\"",
            "Main source dir:     \"/p/crust-main\"",
            "---------------------------------------------",
        ]
    );
    assert_eq!(world.requests, vec!["Print"; 8]);
}

#[test]
fn manifest_is_read_changed_and_written() {
    let mut world = World::new();
    world.file("/p/crust-main/Cargo.toml", b"[lib]\n");
    let context = Context::new("/p", Target::Ios, Variant::Debug);
    assert_eq!(world.drive(create(&context, "staticlib")), Ok(()));
    assert_eq!(
        world.content("/p/ios/.rust-build/Cargo.toml"),
        Some(
            b"[lib]\nlib=\"/p/crust-main/src/lib.rs\" kind=staticlib bin=\"/p/crust-main/src/bin.rs\""
                .to_vec()
        )
    );
    assert_eq!(world.requests, vec!["ReadFile", "PatchManifest", "WriteBytes", "CreateDirAll", "WriteFile"]);
}

#[test]
fn manifest_requests() {
    let state = match create_in("/s", "/w", "cdylib") {
        Next::Continue(state, request) => {
            assert_eq!(request, Request::ReadFile { path: "/s/Cargo.toml".to_string() });
            state
        }
        Next::Finish(_) => panic!("ended too early"),
    };
    let state = match state.step(Response::Content { bytes: b"[lib]".to_vec() }) {
        Next::Continue(state, request) => {
            assert_eq!(
                request,
                Request::PatchManifest {
                    manifest: b"[lib]".to_vec(),
                    lib_path: "\"/s/src/lib.rs\"".to_string(),
                    crate_type: "cdylib".to_string(),
                    bin_path: "\"/s/src/bin.rs\"".to_string(),
                }
            );
            state
        }
        Next::Finish(_) => panic!("ended too early"),
    };
    match state.step(Response::Content { bytes: b"changed".to_vec() }) {
        Next::Continue(state, request) => {
            assert_eq!(
                request,
                Request::WriteBytes { path: "/w/Cargo.toml".to_string(), content: b"changed".to_vec() }
            );
            assert_eq!(state.step(Response::Finished { result: Ok(()) }), Next::Finish(Ok(())));
        }
        Next::Finish(_) => panic!("ended too early"),
    }
}

#[test]
fn manifest_fails_when_it_cannot_be_read_or_changed() {
    let mut world = World::new();
    assert_eq!(
        world.drive(create_in("/p/crust-main", "/w", "cdylib")),
        Err(Failure::Io { path: "/p/crust-main/Cargo.toml".to_string(), message: "no such file".to_string() })
    );
    world.file("/p/crust-main/Cargo.toml", b"");
    assert_eq!(
        world.drive(create_in("/p/crust-main", "/w", "cdylib")),
        Err(Failure::Io { path: "/p/crust-main/Cargo.toml".to_string(), message: "no manifest".to_string() })
    );
    assert!(!world.has("/w/Cargo.toml"));
}
