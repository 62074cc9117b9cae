//! The seam between the verified logic and the engine binary.
//!
//! An `EngineRequest` is the exact argument list handed to the engine; the
//! builders below compose the request shapes for the probe, build, run,
//! stop and image-removal operations. An `EnginePort` performs a request
//! (and the filesystem steps of initialization and cleanup) and reports
//! what happened; the trait promises nothing, so everything proved about
//! the callers holds for every outcome a port can produce.

use vstd::prelude::*;
use vstd::string::StringExecFns;

use crate::entity::{composite_tag, composite_tag_view, copy_strings, strings_view, File, Image, Container};

verus! {

/// An argument list for one invocation of the engine binary.
#[derive(Debug, Clone)]
pub struct EngineRequest {
    pub args: Vec<String>,
}

/// What one invocation of the engine produced: whether it exited zero, and
/// its captured output streams.
#[derive(Debug, Clone)]
pub struct EngineOutput {
    pub success: bool,
    pub stdout: String,
    pub stderr: String,
}

impl EngineOutput {
    /// Copies the output field by field, preserving its value.
    pub fn duplicate(&self) -> (r: EngineOutput)
        ensures
            r == self,
    {
        EngineOutput {
            success: self.success,
            stdout: self.stdout.clone(),
            stderr: self.stderr.clone(),
        }
    }
}

/// Performs engine invocations and the filesystem steps around them.
///
/// The trait carries no promises: a port may fail or succeed any call, and
/// the orchestration logic is verified against every outcome. A port that
/// spawns real processes reports a spawn failure as an unsuccessful
/// `EngineOutput` whose stderr holds the error text.
pub trait EnginePort {
    /// Invokes the engine binary with the request's argument list.
    fn exec(&mut self, req: &EngineRequest) -> (out: EngineOutput);

    /// Creates the directory (and its parents) if it is absent.
    /// `Err` carries the filesystem error text.
    fn ensure_dir(&mut self, path: &String) -> (r: Result<(), String>);

    /// Writes the file's content to the file's path.
    /// `Err` carries the filesystem error text.
    fn write_file(&mut self, file: &File) -> (r: Result<(), String>);

    /// Deletes the file at the path; a missing file is an error.
    /// `Err` carries the filesystem error text.
    fn remove_file(&mut self, path: &String) -> (r: Result<(), String>);
}

/// The argument list of the engine's health probe.
pub open spec fn probe_request_args() -> Seq<Seq<char>> {
    seq!["help"@]
}

/// The argument list of a build request for an image: the fixed flags, the
/// build-definition file, the destination composite tag, a hostname equal to
/// the image name, the pass-through build arguments verbatim, and the
/// working directory as the build context root.
pub open spec fn build_request_args(img: crate::entity::ImageV) -> Seq<Seq<char>> {
    seq![
        "build"@,
        "--no-cache"@,
        "--progress=plain"@,
        "--pull"@,
        "--compress"@,
        "--file"@,
        img.containerfile_path,
        "--tag"@,
        composite_tag_view(img.name, img.tag),
        "--hostname="@ + img.name,
    ] + img.build_args + seq!["."@]
}

/// The argument list of a run request for a container: remove-on-exit, an
/// explicit container name, the pass-through run arguments verbatim, and the
/// image's composite tag as the final positional argument.
pub open spec fn run_request_args(c: crate::entity::ContainerV) -> Seq<Seq<char>> {
    seq!["run"@, "--rm"@, "--name="@ + c.name] + c.run_args + seq![
        composite_tag_view(c.image.name, c.image.tag),
    ]
}

/// The argument list of a forced stop request for a container name.
pub open spec fn stop_request_args(name: Seq<char>) -> Seq<Seq<char>> {
    seq!["stop"@, "--force"@, name]
}

/// The argument list of a forced image-removal request. Removal always
/// targets the `latest` tag of the image's name, whatever tag the image was
/// recorded under; this deliberately keeps the known inconsistency of the
/// cleanup protocol rather than silently correcting it.
pub open spec fn remove_image_request_args(name: Seq<char>) -> Seq<Seq<char>> {
    seq!["rmi"@, "--force"@, name + ":latest"@]
}

/// Composes the engine's health probe request.
pub fn probe_request() -> (r: EngineRequest)
    ensures
        strings_view(r.args@) == probe_request_args(),
{
    let mut args: Vec<String> = Vec::new();
    args.push("help".to_owned());
    proof {
        assert(strings_view(args@) =~= probe_request_args());
    }
    EngineRequest { args }
}

/// Composes a build request for the image.
pub fn build_request(image: &Image) -> (r: EngineRequest)
    ensures
        strings_view(r.args@) == build_request_args(image@),
{
    let mut args: Vec<String> = Vec::new();
    args.push("build".to_owned());
    args.push("--no-cache".to_owned());
    args.push("--progress=plain".to_owned());
    args.push("--pull".to_owned());
    args.push("--compress".to_owned());
    args.push("--file".to_owned());
    args.push(image.containerfile_path.clone());
    args.push("--tag".to_owned());
    args.push(composite_tag(&image.name, &image.tag));
    let mut host_arg = "--hostname=".to_owned();
    host_arg.append(image.name.as_str());
    args.push(host_arg);
    proof {
        assert forall|j: int| 0 <= j < 10 implies args@[j]@ == build_request_args(image@)[j] by {
            assert(build_request_args(image@)[j] == seq![
                "build"@,
                "--no-cache"@,
                "--progress=plain"@,
                "--pull"@,
                "--compress"@,
                "--file"@,
                image@.containerfile_path,
                "--tag"@,
                composite_tag_view(image@.name, image@.tag),
                "--hostname="@ + image@.name,
            ][j]);
        }
    }
    let mut i: usize = 0;
    while i < image.build_args.len()
        invariant
            i <= image.build_args@.len(),
            args@.len() == 10 + i,
            forall|j: int| 0 <= j < 10 + i ==> args@[j]@ == build_request_args(image@)[j],
        decreases image.build_args@.len() - i,
    {
        args.push(image.build_args[i].clone());
        proof {
            assert(build_request_args(image@)[10 + i] == image@.build_args[i as int]);
        }
        i += 1;
    }
    args.push(".".to_owned());
    proof {
        assert(build_request_args(image@)[args@.len() - 1] == "."@);
        assert forall|j: int| 0 <= j < args@.len() implies strings_view(args@)[j]
            == build_request_args(image@)[j] by {
            assert(strings_view(args@)[j] == args@[j]@);
        }
        assert(strings_view(args@) =~= build_request_args(image@));
    }
    EngineRequest { args }
}

/// Composes a run request for the container.
pub fn run_request(container: &Container) -> (r: EngineRequest)
    ensures
        strings_view(r.args@) == run_request_args(container@),
{
    let mut args: Vec<String> = Vec::new();
    args.push("run".to_owned());
    args.push("--rm".to_owned());
    let mut name_arg = "--name=".to_owned();
    name_arg.append(container.name.as_str());
    args.push(name_arg);
    proof {
        assert forall|j: int| 0 <= j < 3 implies args@[j]@ == run_request_args(container@)[j] by {
            assert(run_request_args(container@)[j] == seq![
                "run"@,
                "--rm"@,
                "--name="@ + container@.name,
            ][j]);
        }
    }
    let mut i: usize = 0;
    while i < container.run_args.len()
        invariant
            i <= container.run_args@.len(),
            args@.len() == 3 + i,
            forall|j: int| 0 <= j < 3 + i ==> args@[j]@ == run_request_args(container@)[j],
        decreases container.run_args@.len() - i,
    {
        args.push(container.run_args[i].clone());
        proof {
            assert(run_request_args(container@)[3 + i] == container@.run_args[i as int]);
        }
        i += 1;
    }
    args.push(composite_tag(&container.image.name, &container.image.tag));
    proof {
        assert(run_request_args(container@)[args@.len() - 1] == composite_tag_view(
            container@.image.name,
            container@.image.tag,
        ));
        assert forall|j: int| 0 <= j < args@.len() implies strings_view(args@)[j]
            == run_request_args(container@)[j] by {
            assert(strings_view(args@)[j] == args@[j]@);
        }
        assert(strings_view(args@) =~= run_request_args(container@));
    }
    EngineRequest { args }
}

/// Composes a forced stop request for a container name.
pub fn stop_request(name: &String) -> (r: EngineRequest)
    ensures
        strings_view(r.args@) == stop_request_args(name@),
{
    let mut args: Vec<String> = Vec::new();
    args.push("stop".to_owned());
    args.push("--force".to_owned());
    args.push(name.clone());
    proof {
        assert(strings_view(args@) =~= stop_request_args(name@));
    }
    EngineRequest { args }
}

/// Composes a forced removal request targeting the `latest` tag of the name.
pub fn remove_image_request(name: &String) -> (r: EngineRequest)
    ensures
        strings_view(r.args@) == remove_image_request_args(name@),
{
    let mut args: Vec<String> = Vec::new();
    args.push("rmi".to_owned());
    args.push("--force".to_owned());
    let mut target = name.as_str().to_owned();
    target.append(":latest");
    args.push(target);
    proof {
        assert(strings_view(args@) =~= remove_image_request_args(name@));
    }
    EngineRequest { args }
}

/// A scripted port for exercising the orchestration logic without a real
/// engine: it replays a fixed list of outputs and filesystem results and
/// records every request it was handed.
#[derive(Debug)]
pub struct ScriptedEngine {
    /// Outputs replayed in order by `exec`; an exhausted script yields an
    /// unsuccessful output.
    pub outputs: Vec<EngineOutput>,
    /// How many outputs have been consumed.
    pub cursor: usize,
    /// Results replayed in order by the filesystem operations, `None` for
    /// success; an exhausted script yields success.
    pub fs_results: Vec<Option<String>>,
    /// How many filesystem results have been consumed.
    pub fs_cursor: usize,
    /// Every argument list handed to `exec`, in order.
    pub exec_log: Vec<Vec<String>>,
    /// Every path handed to a filesystem operation, in order.
    pub fs_log: Vec<String>,
}

impl ScriptedEngine {
    /// An empty script: every invocation fails with an exhausted-script
    /// output and every filesystem operation succeeds.
    pub fn new() -> (r: ScriptedEngine)
        ensures
            r.outputs@.len() == 0,
            r.cursor == 0,
            r.fs_results@.len() == 0,
            r.fs_cursor == 0,
            r.exec_log@.len() == 0,
            r.fs_log@.len() == 0,
    {
        ScriptedEngine {
            outputs: Vec::new(),
            cursor: 0,
            fs_results: Vec::new(),
            fs_cursor: 0,
            exec_log: Vec::new(),
            fs_log: Vec::new(),
        }
    }

    /// Replays the next scripted filesystem result: `None` stands for
    /// success, `Some` for a failure carrying its text; an exhausted script
    /// yields success.
    fn next_fs_result(&mut self) -> (r: Result<(), String>)
        ensures
            final(self).outputs == old(self).outputs,
            final(self).cursor == old(self).cursor,
            final(self).fs_results == old(self).fs_results,
            final(self).exec_log == old(self).exec_log,
            final(self).fs_log == old(self).fs_log,
            old(self).fs_cursor < old(self).fs_results@.len() ==> {
                &&& final(self).fs_cursor == old(self).fs_cursor + 1
                &&& r == (match old(self).fs_results@[old(self).fs_cursor as int] {
                    Option::None => Result::<(), String>::Ok(()),
                    Option::Some(m) => Result::<(), String>::Err(m),
                })
            },
            old(self).fs_cursor >= old(self).fs_results@.len() ==> final(self).fs_cursor == old(
                self,
            ).fs_cursor && r is Ok,
    {
        if self.fs_cursor < self.fs_results.len() {
            let out = match &self.fs_results[self.fs_cursor] {
                Option::None => Result::Ok(()),
                Option::Some(m) => Result::Err(m.clone()),
            };
            self.fs_cursor = self.fs_cursor + 1;
            out
        } else {
            Result::Ok(())
        }
    }
}

/// How one scripted filesystem call relates the port's state to its result:
/// the execution script and its cursor are untouched, and the next scripted
/// filesystem result is consumed (success once the script is exhausted).
pub open spec fn scripted_fs_step(
    pre: ScriptedEngine,
    post: ScriptedEngine,
    r: Result<(), String>,
) -> bool {
    &&& post.outputs == pre.outputs
    &&& post.cursor == pre.cursor
    &&& post.fs_results == pre.fs_results
    &&& (pre.fs_cursor < pre.fs_results@.len() ==> post.fs_cursor == pre.fs_cursor + 1 && r == (
    match pre.fs_results@[pre.fs_cursor as int] {
        Option::None => Result::<(), String>::Ok(()),
        Option::Some(m) => Result::<(), String>::Err(m),
    }))
    &&& (pre.fs_cursor >= pre.fs_results@.len() ==> post.fs_cursor == pre.fs_cursor && r is Ok)
}

impl EnginePort for ScriptedEngine {
    fn exec(&mut self, req: &EngineRequest) -> (out: EngineOutput)
        ensures
            final(self).exec_log@.len() == old(self).exec_log@.len() + 1,
            strings_view(final(self).exec_log@.last()@) == strings_view(req.args@),
            final(self).outputs == old(self).outputs,
            final(self).fs_results == old(self).fs_results,
            final(self).fs_cursor == old(self).fs_cursor,
            final(self).fs_log == old(self).fs_log,
            old(self).cursor < old(self).outputs@.len() ==> final(self).cursor == old(self).cursor
                + 1 && out == old(self).outputs@[old(self).cursor as int],
            old(self).cursor >= old(self).outputs@.len() ==> final(self).cursor == old(self).cursor
                && !out.success && out.stdout@ == Seq::<char>::empty() && out.stderr@
                == "script exhausted"@,
    {
        let recorded = copy_strings(&req.args);
        proof {
            assert(strings_view(recorded@) == strings_view(req.args@));
        }
        self.exec_log.push(recorded);
        let out = if self.cursor < self.outputs.len() {
            let out = self.outputs[self.cursor].duplicate();
            self.cursor = self.cursor + 1;
            out
        } else {
            EngineOutput {
                success: false,
                stdout: String::new(),
                stderr: "script exhausted".to_owned(),
            }
        };
        out
    }

    fn ensure_dir(&mut self, path: &String) -> (r: Result<(), String>)
        ensures
            final(self).fs_log@ == old(self).fs_log@.push(*path),
            final(self).exec_log == old(self).exec_log,
            scripted_fs_step(*old(self), *final(self), r),
    {
        self.fs_log.push(path.clone());
        self.next_fs_result()
    }

    fn write_file(&mut self, file: &File) -> (r: Result<(), String>)
        ensures
            final(self).fs_log@ == old(self).fs_log@.push(file.path),
            final(self).exec_log == old(self).exec_log,
            scripted_fs_step(*old(self), *final(self), r),
    {
        self.fs_log.push(file.path.clone());
        self.next_fs_result()
    }

    fn remove_file(&mut self, path: &String) -> (r: Result<(), String>)
        ensures
            final(self).fs_log@ == old(self).fs_log@.push(*path),
            final(self).exec_log == old(self).exec_log,
            scripted_fs_step(*old(self), *final(self), r),
    {
        self.fs_log.push(path.clone());
        self.next_fs_result()
    }
}

} // verus!
