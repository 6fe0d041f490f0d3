//! The chores of the project: its checks, its release archives and its
//! container image.
//!
//! A chore is worked out as a plan, a list of [`Task`]s, and carried out by
//! the program around the library: in order, and no further than the first
//! piece of work that fails.

use vstd::prelude::*;
use crate::path::{has_component, join, joined, parent_of, proper_parent};
use crate::text::{contains, contains_text, texts};

verus! {

/// Where the chores run.
#[derive(Debug, Clone, Copy, PartialEq, Eq, Structural)]
pub enum Platform {
    GitHubActions,
    Local,
}

impl Platform {
    /// The platform, given whether the variable `GITHUB_ACTIONS` is set.
    pub fn current(github_actions: bool) -> (platform: Platform)
        ensures
            platform == if github_actions {
                Platform::GitHubActions
            } else {
                Platform::Local
            },
    {
        if github_actions {
            Platform::GitHubActions
        } else {
            Platform::Local
        }
    }
}

/// One piece of work.
#[derive(Debug)]
pub enum Work {
    /// Run a program: its name, then its arguments.
    Run(Vec<String>),
    /// Make the directory empty: remove it with all that it holds, then
    /// create it.
    Reset(String),
    /// Compress the first file into the second, as well as gzip can.
    Gzip(String, String),
}

/// Work that is reported under one heading.
#[derive(Debug)]
pub struct Task {
    /// The heading, if the work has one.
    pub section: Option<String>,
    pub work: Vec<Work>,
}

/// What a piece of work says.
pub enum WorkView {
    Run(Seq<Seq<char>>),
    Reset(Seq<char>),
    Gzip(Seq<char>, Seq<char>),
}

/// What a task says.
pub struct TaskView {
    pub section: Option<Seq<char>>,
    pub work: Seq<WorkView>,
}

impl View for Work {
    type V = WorkView;

    open spec fn view(&self) -> WorkView {
        match *self {
            Work::Run(argv) => WorkView::Run(texts(argv@)),
            Work::Reset(path) => WorkView::Reset(path@),
            Work::Gzip(src, dst) => WorkView::Gzip(src@, dst@),
        }
    }
}

impl View for Task {
    type V = TaskView;

    open spec fn view(&self) -> TaskView {
        TaskView {
            section: match self.section {
                Some(name) => Some(name@),
                None => None,
            },
            work: self.work@.map_values(|work: Work| work@),
        }
    }
}

/// What a list of tasks says, task by task.
pub open spec fn plan_of(tasks: Seq<Task>) -> Seq<TaskView> {
    tasks.map_values(|task: Task| task@)
}

/// The directory that takes the release archives.
pub open spec fn dist_dir(root: Seq<char>) -> Seq<char> {
    joined(joined(root, "target"@), "dist"@)
}

/// Whether `target` names a Windows platform.
pub open spec fn is_windows(target: Seq<char>) -> bool {
    contains_text(target, "-windows-"@)
}

/// Where the release build for `target` leaves the program.
pub open spec fn binary(root: Seq<char>, target: Seq<char>) -> Seq<char> {
    let path = joined(joined(joined(joined(root, "target"@), target), "release"@), "a-train"@);
    if is_windows(target) {
        path + ".exe"@
    } else {
        path
    }
}

/// Where the archive for `target` goes.
pub open spec fn archive(root: Seq<char>, target: Seq<char>) -> Seq<char> {
    joined(
        dist_dir(root),
        "a-train-"@ + target + if is_windows(target) {
            ".exe.gz"@
        } else {
            ".gz"@
        },
    )
}

/// The lint check.
pub open spec fn clippy_task() -> TaskView {
    TaskView {
        section: Some("Clippy"@),
        work: seq![WorkView::Run(seq!["cargo"@, "clippy"@, "--workspace"@])],
    }
}

/// The test run.
pub open spec fn test_task() -> TaskView {
    TaskView {
        section: Some("Test"@),
        work: seq![WorkView::Run(seq!["cargo"@, "test"@, "--workspace"@])],
    }
}

/// Emptying the directory of the archives.
pub open spec fn reset_task(root: Seq<char>) -> TaskView {
    TaskView {
        section: Some("Resetting dist directory"@),
        work: seq![WorkView::Reset(dist_dir(root))],
    }
}

/// The release build for `target`.
pub open spec fn build_task(target: Seq<char>) -> TaskView {
    TaskView {
        section: Some("Build: "@ + target),
        work: seq![
            WorkView::Run(
                seq![
                    "cross"@,
                    "build"@,
                    "--release"@,
                    "--target"@,
                    target,
                    "--package"@,
                    "a-train"@,
                ],
            ),
        ],
    }
}

/// Stripping the program built for `target` and packing it into its
/// archive.
pub open spec fn package_task(root: Seq<char>, target: Seq<char>) -> TaskView {
    TaskView {
        section: Some("Package: "@ + target),
        work: seq![
            WorkView::Run(seq!["strip"@, binary(root, target)]),
            WorkView::Gzip(binary(root, target), archive(root, target)),
        ],
    }
}

/// The tasks for the targets of a distribution, target by target: the build
/// unless it is skipped, then the package.
pub open spec fn targets_plan(root: Seq<char>, targets: Seq<Seq<char>>, skip_build: bool) -> Seq<
    TaskView,
>
    decreases targets.len(),
{
    if targets.len() == 0 {
        Seq::empty()
    } else if skip_build {
        targets_plan(root, targets.drop_last(), skip_build).push(
            package_task(root, targets.last()),
        )
    } else {
        targets_plan(root, targets.drop_last(), skip_build).push(build_task(targets.last())).push(
            package_task(root, targets.last()),
        )
    }
}

/// The plan of a distribution: empty the directory of the archives, then
/// deal with each target.
pub open spec fn dist_plan(root: Seq<char>, targets: Seq<Seq<char>>, skip_build: bool) -> Seq<
    TaskView,
> {
    seq![reset_task(root)] + targets_plan(root, targets, skip_build)
}

/// The targets that the container image is built for.
pub open spec fn docker_targets() -> Seq<Seq<char>> {
    seq![
        "x86_64-unknown-linux-musl"@,
        "aarch64-unknown-linux-musl"@,
        "arm-unknown-linux-musleabihf"@,
        "armv7-unknown-linux-musleabihf"@,
    ]
}

/// The command that builds the container image, and pushes it to the
/// registry if `push` says so.
pub open spec fn image_command(push: bool) -> Seq<Seq<char>> {
    let command = seq![
        "docker"@,
        "buildx"@,
        "build"@,
        "."@,
        "-t"@,
        "ghcr.io/m-rots/a-train"@,
        "--platform"@,
        "linux/amd64,linux/arm64,linux/arm/v6,linux/arm/v7"@,
    ];
    if push {
        command.push("--push"@)
    } else {
        command
    }
}

/// The plan that builds the container image.
pub open spec fn image_plan(push: bool) -> Seq<TaskView> {
    seq![TaskView { section: None, work: seq![WorkView::Run(image_command(push))] }]
}

/// Adds `text` at the end of `argv`.
fn word(argv: &mut Vec<String>, text: &str)
    ensures
        texts(final(argv)@) == texts(old(argv)@).push(text@),
{
    argv.push(text.to_owned());
    assert(texts(argv@) =~= texts(old(argv)@).push(text@));
}

/// A task of one piece of work under the heading `section`.
fn single(section: String, work: Work) -> (task: Task)
    ensures
        task@ == (TaskView { section: Some(section@), work: seq![work@] }),
{
    let mut list: Vec<Work> = Vec::new();
    list.push(work);
    let task = Task { section: Some(section), work: list };
    assert(task@.work =~= seq![work@]);
    task
}

/// The root of the project: the directory above the one that holds the
/// manifest of the chores, if there is one.
pub fn project_root(manifest_dir: &str) -> (root: Option<String>)
    ensures
        root is Some <==> has_component(manifest_dir@),
        root matches Some(path) ==> path@ == parent_of(manifest_dir@),
{
    proper_parent(manifest_dir)
}

/// The directory that takes the release archives.
pub fn dist_path(root: &str) -> (path: String)
    ensures
        path@ == dist_dir(root@),
{
    let target = join(root, "target");
    join(target.as_str(), "dist")
}

/// Where the release build for `target` leaves the program.
pub fn source_path(root: &str, target: &str) -> (path: String)
    ensures
        path@ == binary(root@, target@),
{
    let builds = join(root, "target");
    let build = join(builds.as_str(), target);
    let release = join(build.as_str(), "release");
    let mut path = join(release.as_str(), "a-train");
    if contains(target, "-windows-") {
        path.append(".exe");
    }
    path
}

/// Where the archive for `target` goes.
pub fn destination_path(root: &str, target: &str) -> (path: String)
    ensures
        path@ == archive(root@, target@),
{
    let suffix = if contains(target, "-windows-") {
        ".exe.gz"
    } else {
        ".gz"
    };
    let mut name = "a-train-".to_owned();
    name.append(target);
    name.append(suffix);
    let dist = dist_path(root);
    join(dist.as_str(), name.as_str())
}

/// The lint check.
pub fn cargo_clippy() -> (task: Task)
    ensures
        task@ == clippy_task(),
{
    let mut argv: Vec<String> = Vec::new();
    word(&mut argv, "cargo");
    word(&mut argv, "clippy");
    word(&mut argv, "--workspace");
    assert(texts(argv@) =~= seq!["cargo"@, "clippy"@, "--workspace"@]);
    single("Clippy".to_owned(), Work::Run(argv))
}

/// The test run.
pub fn cargo_test() -> (task: Task)
    ensures
        task@ == test_task(),
{
    let mut argv: Vec<String> = Vec::new();
    word(&mut argv, "cargo");
    word(&mut argv, "test");
    word(&mut argv, "--workspace");
    assert(texts(argv@) =~= seq!["cargo"@, "test"@, "--workspace"@]);
    single("Test".to_owned(), Work::Run(argv))
}

/// Emptying the directory of the archives.
pub fn reset_dist(root: &str) -> (task: Task)
    ensures
        task@ == reset_task(root@),
{
    single("Resetting dist directory".to_owned(), Work::Reset(dist_path(root)))
}

/// The release build for `target`.
pub fn cross_build(target: &str) -> (task: Task)
    ensures
        task@ == build_task(target@),
{
    let mut argv: Vec<String> = Vec::new();
    word(&mut argv, "cross");
    word(&mut argv, "build");
    word(&mut argv, "--release");
    word(&mut argv, "--target");
    word(&mut argv, target);
    word(&mut argv, "--package");
    word(&mut argv, "a-train");
    assert(texts(argv@) =~= seq![
        "cross"@,
        "build"@,
        "--release"@,
        "--target"@,
        target@,
        "--package"@,
        "a-train"@,
    ]);
    let mut section = "Build: ".to_owned();
    section.append(target);
    single(section, Work::Run(argv))
}

/// Taking the symbols out of the program at `src`.
pub fn strip(src: &str) -> (work: Work)
    ensures
        work@ == WorkView::Run(seq!["strip"@, src@]),
{
    let mut argv: Vec<String> = Vec::new();
    word(&mut argv, "strip");
    word(&mut argv, src);
    assert(texts(argv@) =~= seq!["strip"@, src@]);
    Work::Run(argv)
}

/// Stripping the program built for `target` and packing it into its
/// archive.
pub fn package(root: &str, target: &str) -> (task: Task)
    ensures
        task@ == package_task(root@, target@),
{
    let src = source_path(root, target);
    let dst = destination_path(root, target);
    let mut work: Vec<Work> = Vec::new();
    work.push(strip(src.as_str()));
    work.push(Work::Gzip(src, dst));
    let mut section = "Package: ".to_owned();
    section.append(target);
    let task = Task { section: Some(section), work };
    assert(task@.work =~= package_task(root@, target@).work);
    task
}

/// The check of the project: lints, then tests.
#[derive(Debug)]
pub struct Ci;

impl Ci {
    /// The plan of the check.
    pub fn run(&self) -> (plan: Vec<Task>)
        ensures
            plan_of(plan@) == seq![clippy_task(), test_task()],
    {
        let mut plan: Vec<Task> = Vec::new();
        plan.push(cargo_clippy());
        plan.push(cargo_test());
        assert(plan_of(plan@) =~= seq![clippy_task(), test_task()]);
        plan
    }
}

/// The making of the release archives.
#[derive(Debug)]
pub struct Dist {
    /// Whether the programs are taken as built.
    pub skip_build: bool,
    /// The platforms to make an archive for.
    pub targets: Vec<String>,
}

impl Dist {
    /// The making of the archives for `targets`, each built anew.
    pub fn new(targets: Vec<String>) -> (dist: Dist)
        ensures
            dist == (Dist { skip_build: false, targets }),
    {
        Dist { skip_build: false, targets }
    }

    /// The plan of the distribution below the project root `root`.
    pub fn run(&self, root: &str) -> (plan: Vec<Task>)
        ensures
            plan_of(plan@) == dist_plan(root@, texts(self.targets@), self.skip_build),
    {
        let ghost targets = texts(self.targets@);
        let mut plan: Vec<Task> = Vec::new();
        plan.push(reset_dist(root));
        assert(plan_of(plan@) =~= seq![reset_task(root@)] + targets_plan(
            root@,
            targets.take(0),
            self.skip_build,
        ));
        let mut i: usize = 0;
        while i < self.targets.len()
            invariant
                i <= self.targets.len(),
                targets == texts(self.targets@),
                plan_of(plan@) == seq![reset_task(root@)] + targets_plan(
                    root@,
                    targets.take(i as int),
                    self.skip_build,
                ),
            decreases self.targets.len() - i,
        {
            let ghost done = plan_of(plan@);
            let ghost next = targets.take(i + 1);
            proof {
                assert(next.drop_last() =~= targets.take(i as int));
                assert(next.last() == self.targets@[i as int]@);
            }
            let target = self.targets[i].as_str();
            if !self.skip_build {
                plan.push(cross_build(target));
                assert(plan_of(plan@) =~= done.push(build_task(target@)));
            }
            let ghost built = plan_of(plan@);
            plan.push(package(root, target));
            proof {
                assert(plan_of(plan@) =~= built.push(package_task(root@, target@)));
                assert(plan_of(plan@) =~= seq![reset_task(root@)] + targets_plan(
                    root@,
                    next,
                    self.skip_build,
                ));
            }
            i += 1;
        }
        assert(targets.take(self.targets@.len() as int) =~= targets);
        plan
    }
}

/// The building of the container image.
#[derive(Debug)]
pub struct Build {
    /// Whether the image is pushed to the registry.
    pub push: bool,
}

impl Build {
    /// The plan that builds the image.
    pub fn run(&self) -> (plan: Vec<Task>)
        ensures
            plan_of(plan@) == image_plan(self.push),
    {
        let mut argv: Vec<String> = Vec::new();
        word(&mut argv, "docker");
        word(&mut argv, "buildx");
        word(&mut argv, "build");
        word(&mut argv, ".");
        word(&mut argv, "-t");
        word(&mut argv, "ghcr.io/m-rots/a-train");
        word(&mut argv, "--platform");
        word(&mut argv, "linux/amd64,linux/arm64,linux/arm/v6,linux/arm/v7");
        if self.push {
            word(&mut argv, "--push");
        }
        assert(texts(argv@) =~= image_command(self.push));
        let mut work: Vec<Work> = Vec::new();
        work.push(Work::Run(argv));
        let mut plan: Vec<Task> = Vec::new();
        plan.push(Task { section: None, work });
        assert(plan@[0]@.work =~= seq![WorkView::Run(image_command(self.push))]);
        assert(plan_of(plan@) =~= image_plan(self.push));
        plan
    }
}

/// The making of the programs that go into the container image.
#[derive(Debug)]
pub struct Prepare {
    /// Whether the programs are taken as built.
    pub skip_build: bool,
}

impl Prepare {
    /// The plan that makes the archives for the platforms of the image.
    pub fn run(&self, root: &str) -> (plan: Vec<Task>)
        ensures
            plan_of(plan@) == dist_plan(root@, docker_targets(), self.skip_build),
    {
        let mut targets: Vec<String> = Vec::new();
        word(&mut targets, "x86_64-unknown-linux-musl");
        word(&mut targets, "aarch64-unknown-linux-musl");
        word(&mut targets, "arm-unknown-linux-musleabihf");
        word(&mut targets, "armv7-unknown-linux-musleabihf");
        assert(texts(targets@) =~= docker_targets());
        let dist = Dist { skip_build: self.skip_build, targets };
        dist.run(root)
    }
}

/// A chore about the container image.
#[derive(Debug)]
pub enum Docker {
    /// Build the image. The programs have to be prepared first.
    Build(Build),
    /// Prepare the programs for the image.
    Prepare(Prepare),
}

impl Docker {
    /// The plan of the chore below the project root `root`.
    pub fn run(&self, root: &str) -> (plan: Vec<Task>)
        ensures
            plan_of(plan@) == match *self {
                Docker::Build(build) => image_plan(build.push),
                Docker::Prepare(prepare) => dist_plan(root@, docker_targets(), prepare.skip_build),
            },
    {
        match self {
            Docker::Build(build) => build.run(),
            Docker::Prepare(prepare) => prepare.run(root),
        }
    }
}

/// A chore.
#[derive(Debug)]
pub enum SubCommand {
    Ci(Ci),
    Dist(Dist),
    Docker(Docker),
}

/// The plan of the chore `cmd` below the project root `root`.
pub fn run(cmd: &SubCommand, root: &str) -> (plan: Vec<Task>)
    ensures
        plan_of(plan@) == match *cmd {
            SubCommand::Ci(_) => seq![clippy_task(), test_task()],
            SubCommand::Dist(dist) => dist_plan(root@, texts(dist.targets@), dist.skip_build),
            SubCommand::Docker(Docker::Build(build)) => image_plan(build.push),
            SubCommand::Docker(Docker::Prepare(prepare)) => dist_plan(
                root@,
                docker_targets(),
                prepare.skip_build,
            ),
        },
{
    match cmd {
        SubCommand::Ci(cmd) => cmd.run(),
        SubCommand::Dist(cmd) => cmd.run(root),
        SubCommand::Docker(cmd) => cmd.run(root),
    }
}

} // verus!
