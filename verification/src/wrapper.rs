//! The engine capability contract and its Docker-backed implementation.
//!
//! `ContainerCliWrapper` is the four-operation contract any backend
//! satisfies; orchestration code is written against it. `DockerCliWrapper`
//! is the concrete adapter: it owns the image registry and the list of
//! tracked containers, shapes requests for an engine binary, and interprets
//! exit status and output streams. All process and filesystem effects go
//! through its `EnginePort`, so every contract here holds for every outcome
//! the engine can produce.

use vstd::prelude::*;
use vstd::string::StringExecFns;

use crate::engine::{
    build_request, probe_request, remove_image_request, run_request, stop_request, EngineOutput,
    EnginePort,
};
use crate::entity::{
    composite_tag, composite_tag_view, lemma_empty_metadata_views, Container, ContainerV, File,
    Image, ImageV,
};
use crate::error::EngineError;
use crate::registry::{
    lemma_contains_at, lemma_upsert_frame, lemma_upsert_get, lemma_upsert_wf, reg_contains,
    reg_find, reg_get, reg_model, reg_upsert, reg_upsert_exec, reg_wf,
};

verus! {

/// The mathematical content of a list of tracked containers.
pub open spec fn containers_view(s: Seq<Container>) -> Seq<ContainerV> {
    s.map_values(|c: Container| c@)
}

/// The canary image: a well-known public image with empty build metadata,
/// run once during initialization solely to prove the engine can pull and
/// run images end to end.
pub open spec fn canary_image_v() -> ImageV {
    ImageV {
        name: "hello-world"@,
        tag: "latest"@,
        containerfile_path: Seq::<char>::empty(),
        build_logs: Seq::<char>::empty(),
        build_args: Seq::<Seq<char>>::empty(),
        build_secrets: Seq::<(Seq<char>, Seq<char>)>::empty(),
    }
}

/// What registering the canary leaves of the tracked containers: the prior
/// entries kept in order, and one new entry at the end, named after the
/// canary image and owning an unmutated snapshot of it.
pub open spec fn canary_registered(pre: Seq<ContainerV>, post: Seq<ContainerV>) -> bool {
    &&& post.len() == pre.len() + 1
    &&& post.take(pre.len() as int) == pre
    &&& post.last().name == "hello-world"@
    &&& post.last().image == canary_image_v()
}

/// The directory that holds the generated build-definition files.
pub open spec fn containerfiles_dir_path() -> Seq<char> {
    "./isolated/containerfiles"@
}

/// The fixed path of the shared entrypoint script.
pub open spec fn entrypoint_path() -> Seq<char> {
    "./isolated/entrypoint.sh"@
}

/// The fixed path of the C/C++ build-definition file.
pub open spec fn c_cpp_containerfile_path() -> Seq<char> {
    "./isolated/containerfiles/c_cpp.containerfile"@
}

/// The fixed path of the C#/.NET build-definition file.
pub open spec fn cs_dotnet_containerfile_path() -> Seq<char> {
    "./isolated/containerfiles/cs_dotnet.containerfile"@
}

/// The entrypoint script's payload (an opaque asset bundled with the system).
pub open spec fn entrypoint_payload() -> Seq<char> {
    "#!/bin/sh\nexec \"$@\"\n"@
}

/// The C/C++ build definition's payload (an opaque asset bundled with the
/// system).
pub open spec fn c_cpp_containerfile_payload() -> Seq<char> {
    "FROM gcc:latest\nCOPY ./isolated/entrypoint.sh /entrypoint.sh\nENTRYPOINT [\"/entrypoint.sh\"]\n"@
}

/// The C#/.NET build definition's payload (an opaque asset bundled with the
/// system).
pub open spec fn cs_dotnet_containerfile_payload() -> Seq<char> {
    "FROM mcr.microsoft.com/dotnet/sdk:latest\nCOPY ./isolated/entrypoint.sh /entrypoint.sh\nENTRYPOINT [\"/entrypoint.sh\"]\n"@
}

/// Composes the directory path under which the build-definition files are
/// generated.
pub fn containerfiles_dir() -> (r: String)
    ensures
        r@ == containerfiles_dir_path(),
{
    "./isolated/containerfiles".to_owned()
}

/// Composes the static assets initialization materializes to disk: the
/// shared entrypoint script and one build-definition file per supported
/// toolchain, each at its fixed path.
pub fn generated_assets() -> (r: Vec<File>)
    ensures
        r@.len() == 3,
        r@[0].path@ == entrypoint_path(),
        r@[0].content@ == entrypoint_payload(),
        r@[1].path@ == c_cpp_containerfile_path(),
        r@[1].content@ == c_cpp_containerfile_payload(),
        r@[2].path@ == cs_dotnet_containerfile_path(),
        r@[2].content@ == cs_dotnet_containerfile_payload(),
{
    let mut r: Vec<File> = Vec::new();
    r.push(File {
        path: "./isolated/entrypoint.sh".to_owned(),
        content: "#!/bin/sh\nexec \"$@\"\n".to_owned(),
    });
    r.push(File {
        path: "./isolated/containerfiles/c_cpp.containerfile".to_owned(),
        content: "FROM gcc:latest\nCOPY ./isolated/entrypoint.sh /entrypoint.sh\nENTRYPOINT [\"/entrypoint.sh\"]\n".to_owned(),
    });
    r.push(File {
        path: "./isolated/containerfiles/cs_dotnet.containerfile".to_owned(),
        content: "FROM mcr.microsoft.com/dotnet/sdk:latest\nCOPY ./isolated/entrypoint.sh /entrypoint.sh\nENTRYPOINT [\"/entrypoint.sh\"]\n".to_owned(),
    });
    r
}

/// Composes the two generated build-definition paths that cleanup deletes.
pub fn generated_containerfile_paths() -> (r: (String, String))
    ensures
        r.0@ == c_cpp_containerfile_path(),
        r.1@ == cs_dotnet_containerfile_path(),
{
    (
        "./isolated/containerfiles/c_cpp.containerfile".to_owned(),
        "./isolated/containerfiles/cs_dotnet.containerfile".to_owned(),
    )
}

/// Whether the registry records a freshly built toolchain image: keyed by
/// `name` at tag `latest`, built from the given build-definition path, with
/// empty pass-through metadata.
pub open spec fn toolchain_entry_ok(
    s: Seq<(Seq<char>, ImageV)>,
    name: Seq<char>,
    path: Seq<char>,
) -> bool {
    let k = composite_tag_view(name, "latest"@);
    &&& reg_contains(s, k)
    &&& reg_get(s, k).name == name
    &&& reg_get(s, k).tag == "latest"@
    &&& reg_get(s, k).containerfile_path == path
    &&& reg_get(s, k).build_args == Seq::<Seq<char>>::empty()
    &&& reg_get(s, k).build_secrets == Seq::<(Seq<char>, Seq<char>)>::empty()
}

/// The capability set any container backend satisfies. Orchestration code
/// depends only on this contract, never on a concrete backend type.
pub trait ContainerCliWrapper: Sized {
    /// The image registry's content: `(composite tag, image)` entries in
    /// insertion order.
    spec fn images_model(&self) -> Seq<(Seq<char>, ImageV)>;

    /// The tracked containers' content, in registration order.
    spec fn containers_model(&self) -> Seq<ContainerV>;

    /// The registry invariant: unique keys, each the composite tag of its
    /// own entry.
    spec fn inv(&self) -> bool;

    /// Verifies the engine is reachable and prepares the backend: probes
    /// the engine, registers and runs the canary container, materializes
    /// the build-definition files, and builds the fixed toolchain images.
    /// Each step is fatal on failure; completed side effects are kept, and
    /// each error variant pins which steps had completed.
    fn init(&mut self) -> (r: Result<(), EngineError>)
        requires
            old(self).inv(),
        ensures
            final(self).inv(),
            (match r {
                Ok(()) => {
                    &&& canary_registered(
                        old(self).containers_model(),
                        final(self).containers_model(),
                    )
                    &&& reg_contains(
                        final(self).images_model(),
                        composite_tag_view("hello-world"@, "latest"@),
                    )
                    &&& reg_get(
                        final(self).images_model(),
                        composite_tag_view("hello-world"@, "latest"@),
                    ) == canary_image_v()
                    &&& toolchain_entry_ok(
                        final(self).images_model(),
                        "c_cpp_container"@,
                        c_cpp_containerfile_path(),
                    )
                    &&& toolchain_entry_ok(
                        final(self).images_model(),
                        "cs_dotnet_container"@,
                        cs_dotnet_containerfile_path(),
                    )
                },
                Err(e) => {
                    &&& (e is EngineUnavailable || e is RunFailure || e is FsFailure
                        || e is BuildFailure)
                    &&& (e is EngineUnavailable ==> final(self).images_model() == old(
                        self,
                    ).images_model() && final(self).containers_model() == old(
                        self,
                    ).containers_model())
                    &&& (e is RunFailure ==> final(self).images_model() == reg_upsert(
                        old(self).images_model(),
                        composite_tag_view("hello-world"@, "latest"@),
                        canary_image_v(),
                    ) && final(self).containers_model() == old(self).containers_model())
                    &&& (e is FsFailure ==> final(self).images_model() == reg_upsert(
                        old(self).images_model(),
                        composite_tag_view("hello-world"@, "latest"@),
                        canary_image_v(),
                    ) && canary_registered(
                        old(self).containers_model(),
                        final(self).containers_model(),
                    ))
                    &&& (e is BuildFailure ==> canary_registered(
                        old(self).containers_model(),
                        final(self).containers_model(),
                    ) && reg_contains(
                        final(self).images_model(),
                        composite_tag_view("hello-world"@, "latest"@),
                    ) && reg_get(
                        final(self).images_model(),
                        composite_tag_view("hello-world"@, "latest"@),
                    ) == canary_image_v() && (!reg_contains(
                        old(self).images_model(),
                        composite_tag_view("cs_dotnet_container"@, "latest"@),
                    ) ==> !reg_contains(
                        final(self).images_model(),
                        composite_tag_view("cs_dotnet_container"@, "latest"@),
                    )))
                },
            }),
            r is Ok && old(self).images_model().len() == 0 ==> final(self).images_model().len()
                == 3,
    ;

    /// Builds the image, mutating it with the captured stdout on success and
    /// upserting it into the registry under its composite tag; a failed
    /// build mutates nothing and carries the captured stderr.
    fn build_image(&mut self, image: &mut Image) -> (r: Result<String, EngineError>)
        requires
            old(self).inv(),
        ensures
            final(self).inv(),
            final(self).containers_model() == old(self).containers_model(),
            (match r {
                Ok(log) => {
                    &&& final(image)@ == (ImageV { build_logs: log@, ..old(image)@ })
                    &&& final(self).images_model() == reg_upsert(
                        old(self).images_model(),
                        composite_tag_view(old(image)@.name, old(image)@.tag),
                        final(image)@,
                    )
                },
                Err(e) => {
                    &&& e is BuildFailure
                    &&& final(image)@ == old(image)@
                    &&& final(self).images_model() == old(self).images_model()
                },
            }),
    ;

    /// Runs the container, mutating it with the captured stdout on success;
    /// a failed run mutates nothing and carries the captured stderr. Running
    /// never registers the container: registration is the caller's separate
    /// step.
    fn run_container(&mut self, container: &mut Container) -> (r: Result<String, EngineError>)
        requires
            old(self).inv(),
        ensures
            final(self).inv(),
            final(self).images_model() == old(self).images_model(),
            final(self).containers_model() == old(self).containers_model(),
            (match r {
                Ok(log) => final(container)@ == (ContainerV { run_logs: log@, ..old(container)@ }),
                Err(e) => e is RunFailure && final(container)@ == old(container)@,
            }),
    ;

    /// Stops every tracked container, removes every registered image, and
    /// deletes the generated build-definition files, fail-fast: the first
    /// failure aborts the remainder with nothing rolled back.
    fn cleanup(&mut self) -> (r: Result<(), EngineError>)
        requires
            old(self).inv(),
        ensures
            final(self).inv(),
            (match r {
                Ok(()) => final(self).containers_model().len() == 0
                    && final(self).images_model().len() == 0,
                Err(e) => e is CleanupFailure && {
                    ||| final(self).containers_model() == old(self).containers_model()
                        && final(self).images_model() == old(self).images_model()
                    ||| final(self).containers_model().len() == 0 && final(self).images_model()
                        == old(self).images_model()
                    ||| final(self).containers_model().len() == 0
                        && final(self).images_model().len() == 0
                },
            }),
            old(self).containers_model().len() == 0 && old(self).images_model().len() == 0
                ==> final(self).containers_model().len() == 0 && final(self).images_model().len()
                == 0,
    ;
}

/// The Docker-backed adapter: owns the registries and an engine port.
#[derive(Debug)]
pub struct DockerCliWrapper<E: EnginePort> {
    /// Performs the engine invocations and filesystem steps.
    pub engine: E,
    /// The image registry: `(composite tag, image)` in insertion order.
    pub images: Vec<(String, Image)>,
    /// Containers registered for teardown, in registration order.
    pub containers: Vec<Container>,
}

impl<E: EnginePort> DockerCliWrapper<E> {
    /// A wrapper with empty registries around the given port.
    pub fn new(engine: E) -> (r: Self)
        ensures
            r.engine == engine,
            r.images@.len() == 0,
            r.containers@.len() == 0,
            r.inv(),
    {
        DockerCliWrapper { engine, images: Vec::new(), containers: Vec::new() }
    }

    /// Looks an image up by its exact composite `"name:tag"` key.
    pub fn lookup_image(&self, key: &String) -> (r: Option<&Image>)
        requires
            self.inv(),
        ensures
            (match r {
                Some(img) => reg_contains(self.images_model(), key@) && img@ == reg_get(
                    self.images_model(),
                    key@,
                ),
                None => !reg_contains(self.images_model(), key@),
            }),
    {
        match reg_find(&self.images, key) {
            Some(i) => {
                proof {
                    lemma_contains_at(reg_model(self.images@), key@, i as int);
                }
                Some(&self.images[i].1)
            },
            None => None,
        }
    }

    /// Issues a forced stop for every tracked container, then clears the
    /// list. Fail-fast: the first stop failure is returned at once, with the
    /// list untouched. With no tracked containers this always succeeds.
    pub fn stop_all_containers(&mut self) -> (r: Result<(), EngineError>)
        ensures
            final(self).images == old(self).images,
            (match r {
                Ok(()) => final(self).containers@.len() == 0,
                Err(e) => e is CleanupFailure && final(self).containers == old(self).containers,
            }),
            old(self).containers@.len() == 0 ==> r is Ok,
    {
        let mut i: usize = 0;
        while i < self.containers.len()
            invariant
                i <= self.containers@.len(),
                self.images == old(self).images,
                self.containers == old(self).containers,
            decreases self.containers@.len() - i,
        {
            let req = stop_request(&self.containers[i].name);
            let out = self.engine.exec(&req);
            match apply_teardown_output(&out) {
                Ok(()) => {},
                Err(e) => {
                    return Err(e);
                },
            }
            i += 1;
        }
        self.containers.clear();
        Ok(())
    }

    /// Issues a forced removal for every registered image, then clears the
    /// registry. Removal targets the `latest` tag of each image's name,
    /// whatever tag it was recorded under (the protocol's known
    /// inconsistency, kept deliberately). Fail-fast; with an empty registry
    /// this always succeeds.
    pub fn remove_all_images(&mut self) -> (r: Result<(), EngineError>)
        ensures
            final(self).containers == old(self).containers,
            (match r {
                Ok(()) => final(self).images@.len() == 0,
                Err(e) => e is CleanupFailure && final(self).images == old(self).images,
            }),
            old(self).images@.len() == 0 ==> r is Ok,
    {
        let mut i: usize = 0;
        while i < self.images.len()
            invariant
                i <= self.images@.len(),
                self.images == old(self).images,
                self.containers == old(self).containers,
            decreases self.images@.len() - i,
        {
            let req = remove_image_request(&self.images[i].1.name);
            let out = self.engine.exec(&req);
            match apply_teardown_output(&out) {
                Ok(()) => {},
                Err(e) => {
                    return Err(e);
                },
            }
            i += 1;
        }
        self.images.clear();
        Ok(())
    }
}

impl<E: EnginePort> ContainerCliWrapper for DockerCliWrapper<E> {
    open spec fn images_model(&self) -> Seq<(Seq<char>, ImageV)> {
        reg_model(self.images@)
    }

    open spec fn containers_model(&self) -> Seq<ContainerV> {
        containers_view(self.containers@)
    }

    open spec fn inv(&self) -> bool {
        reg_wf(reg_model(self.images@))
    }

    fn init(&mut self) -> (r: Result<(), EngineError>) {
        let probe = probe_request();
        let out = self.engine.exec(&probe);
        match apply_probe_output(&out) {
            Ok(()) => {},
            Err(e) => {
                return Err(e);
            },
        }

        // Register and run the canary container: the end-to-end health check.
        let canary = Image {
            name: "hello-world".to_owned(),
            tag: "latest".to_owned(),
            containerfile_path: String::new(),
            build_logs: String::new(),
            build_args: Vec::new(),
            build_secrets: Vec::new(),
        };
        proof {
            lemma_empty_metadata_views();
            assert(canary@ == canary_image_v());
        }
        let ghost m0 = reg_model(self.images@);
        let ghost kc = composite_tag_view("hello-world"@, "latest"@);
        let key = canary.key();
        proof {
            lemma_upsert_get(m0, kc, canary_image_v());
            lemma_upsert_wf(m0, kc, canary_image_v());
        }
        reg_upsert_exec(&mut self.images, key, canary.duplicate());
        let ghost m1 = reg_model(self.images@);

        let mut canary_container = Container::from_image(canary);
        match self.run_container(&mut canary_container) {
            Ok(_) => {},
            Err(e) => {
                return Err(e);
            },
        }
        let ghost before_push = containers_view(self.containers@);
        self.containers.push(canary_container);
        let ghost kcpp = composite_tag_view("c_cpp_container"@, "latest"@);
        let ghost kcs = composite_tag_view("cs_dotnet_container"@, "latest"@);
        proof {
            assert(containers_view(self.containers@) =~= before_push.push(
                self.containers@.last()@,
            ));
            assert(containers_view(self.containers@).take(before_push.len() as int)
                =~= before_push);
            assert(canary_registered(before_push, containers_view(self.containers@)));
            lemma_fixed_keys_distinct();
            lemma_upsert_frame(m0, kc, canary_image_v(), kcs);
        }

        // Materialize the build-definition files at their fixed paths.
        let dir = containerfiles_dir();
        match apply_fs_result(self.engine.ensure_dir(&dir)) {
            Ok(()) => {},
            Err(e) => {
                return Err(e);
            },
        }
        let assets = generated_assets();
        match apply_fs_result(self.engine.write_file(&assets[0])) {
            Ok(()) => {},
            Err(e) => {
                return Err(e);
            },
        }
        match apply_fs_result(self.engine.write_file(&assets[1])) {
            Ok(()) => {},
            Err(e) => {
                return Err(e);
            },
        }
        match apply_fs_result(self.engine.write_file(&assets[2])) {
            Ok(()) => {},
            Err(e) => {
                return Err(e);
            },
        }
        // Build the fixed toolchain images; any build failure aborts.
        let mut c_cpp_image = Image {
            name: "c_cpp_container".to_owned(),
            tag: "latest".to_owned(),
            containerfile_path: "./isolated/containerfiles/c_cpp.containerfile".to_owned(),
            build_logs: String::new(),
            build_args: Vec::new(),
            build_secrets: Vec::new(),
        };
        proof {
            lemma_empty_metadata_views();
        }
        let ghost m2 = reg_model(self.images@);
        match self.build_image(&mut c_cpp_image) {
            Ok(_) => {},
            Err(e) => {
                return Err(e);
            },
        }
        let ghost m3 = reg_model(self.images@);
        proof {
            lemma_upsert_get(m2, kcpp, c_cpp_image@);
            lemma_upsert_frame(m2, kcpp, c_cpp_image@, kc);
            lemma_upsert_frame(m2, kcpp, c_cpp_image@, kcs);
        }
        let mut cs_dotnet_image = Image {
            name: "cs_dotnet_container".to_owned(),
            tag: "latest".to_owned(),
            containerfile_path: "./isolated/containerfiles/cs_dotnet.containerfile".to_owned(),
            build_logs: String::new(),
            build_args: Vec::new(),
            build_secrets: Vec::new(),
        };
        proof {
            lemma_empty_metadata_views();
        }
        match self.build_image(&mut cs_dotnet_image) {
            Ok(_) => {},
            Err(e) => {
                return Err(e);
            },
        }
        proof {
            lemma_upsert_get(m3, kcs, cs_dotnet_image@);
            lemma_upsert_frame(m3, kcs, cs_dotnet_image@, kc);
            lemma_upsert_frame(m3, kcs, cs_dotnet_image@, kcpp);
            // On a fresh registry the three distinct keys appended exactly
            // three entries.
            if m0.len() == 0 {
                assert(!reg_contains(m0, kc));
                assert(m1 == m0.push((kc, canary_image_v())));
                assert(m1.len() == 1 && m1[0].0 == kc);
                assert(!reg_contains(m2, kcpp));
                assert(m3 == m2.push((kcpp, c_cpp_image@)));
                assert(m3.len() == 2 && m3[1].0 == kcpp);
                assert(!reg_contains(m3, kcs));
                assert(reg_model(self.images@) == m3.push((kcs, cs_dotnet_image@)));
                assert(reg_model(self.images@).len() == 3);
            }
        }
        Ok(())
    }

    fn build_image(&mut self, image: &mut Image) -> (r: Result<String, EngineError>) {
        let req = build_request(image);
        let out = self.engine.exec(&req);
        apply_build_output(&mut self.images, image, &out)
    }

    fn run_container(&mut self, container: &mut Container) -> (r: Result<String, EngineError>) {
        let req = run_request(container);
        let out = self.engine.exec(&req);
        apply_run_output(container, &out)
    }

    fn cleanup(&mut self) -> (r: Result<(), EngineError>) {
        match self.stop_all_containers() {
            Ok(()) => {},
            Err(e) => {
                return Err(e);
            },
        }
        match self.remove_all_images() {
            Ok(()) => {},
            Err(e) => {
                return Err(e);
            },
        }
        let paths = generated_containerfile_paths();
        match apply_deletion_result(self.engine.remove_file(&paths.0)) {
            Ok(()) => {},
            Err(e) => {
                return Err(e);
            },
        }
        match apply_deletion_result(self.engine.remove_file(&paths.1)) {
            Ok(()) => {},
            Err(e) => {
                return Err(e);
            },
        }
        Ok(())
    }
}

/// Interprets the health probe's outcome: a zero exit means the engine is
/// reachable; a non-zero exit is an `EngineUnavailable` carrying the
/// captured stderr verbatim.
pub fn apply_probe_output(out: &EngineOutput) -> (r: Result<(), EngineError>)
    ensures
        out.success <==> r is Ok,
        !out.success ==> (match r {
            Ok(_) => false,
            Err(e) => e is EngineUnavailable && e.message_view() == out.stderr@,
        }),
{
    if out.success {
        Ok(())
    } else {
        Err(EngineError::EngineUnavailable(out.stderr.clone()))
    }
}

/// Interprets a stop or image-removal outcome during cleanup: a non-zero
/// exit is a `CleanupFailure` carrying the captured stderr verbatim.
pub fn apply_teardown_output(out: &EngineOutput) -> (r: Result<(), EngineError>)
    ensures
        out.success <==> r is Ok,
        !out.success ==> (match r {
            Ok(_) => false,
            Err(e) => e is CleanupFailure && e.message_view() == out.stderr@,
        }),
{
    if out.success {
        Ok(())
    } else {
        Err(EngineError::CleanupFailure(out.stderr.clone()))
    }
}

/// Maps a filesystem result of initialization: a failure is an `FsFailure`
/// carrying the filesystem error text verbatim.
pub fn apply_fs_result(step: Result<(), String>) -> (r: Result<(), EngineError>)
    ensures
        step is Ok <==> r is Ok,
        (match step {
            Ok(_) => true,
            Err(m) => (match r {
                Ok(_) => false,
                Err(e) => e is FsFailure && e.message_view() == m@,
            }),
        }),
{
    match step {
        Ok(()) => Ok(()),
        Err(m) => Err(EngineError::FsFailure(m)),
    }
}

/// Maps a file-deletion result of cleanup: a failure is a `CleanupFailure`
/// carrying the filesystem error text verbatim.
pub fn apply_deletion_result(step: Result<(), String>) -> (r: Result<(), EngineError>)
    ensures
        step is Ok <==> r is Ok,
        (match step {
            Ok(_) => true,
            Err(m) => (match r {
                Ok(_) => false,
                Err(e) => e is CleanupFailure && e.message_view() == m@,
            }),
        }),
{
    match step {
        Ok(()) => Ok(()),
        Err(m) => Err(EngineError::CleanupFailure(m)),
    }
}

/// Interprets a build invocation's outcome: on success stores the captured
/// stdout in the image, upserts the image into the registry under its
/// composite tag and returns the log; on failure returns a `BuildFailure`
/// carrying the captured stderr verbatim and mutates nothing.
pub fn apply_build_output(
    images: &mut Vec<(String, Image)>,
    image: &mut Image,
    out: &EngineOutput,
) -> (r: Result<String, EngineError>)
    requires
        reg_wf(reg_model(old(images)@)),
    ensures
        reg_wf(reg_model(final(images)@)),
        out.success ==> (match r {
            Ok(log) => {
                &&& log@ == out.stdout@
                &&& final(image)@ == (ImageV { build_logs: out.stdout@, ..old(image)@ })
                &&& reg_model(final(images)@) == reg_upsert(
                    reg_model(old(images)@),
                    composite_tag_view(old(image)@.name, old(image)@.tag),
                    final(image)@,
                )
            },
            Err(_) => false,
        }),
        !out.success ==> (match r {
            Ok(_) => false,
            Err(e) => {
                &&& e is BuildFailure
                &&& e.message_view() == out.stderr@
                &&& *final(image) == *old(image)
                &&& *final(images) == *old(images)
            },
        }),
{
    if out.success {
        image.build_logs = out.stdout.clone();
        let key = composite_tag(&image.name, &image.tag);
        proof {
            lemma_upsert_wf(reg_model(images@), key@, image@);
        }
        reg_upsert_exec(images, key, image.duplicate());
        Ok(image.build_logs.clone())
    } else {
        Err(EngineError::BuildFailure(out.stderr.clone()))
    }
}

/// Interprets a run invocation's outcome: on success stores the captured
/// stdout in the container and returns the log; on failure returns a
/// `RunFailure` carrying the captured stderr verbatim and mutates nothing.
/// It never touches any registry.
pub fn apply_run_output(container: &mut Container, out: &EngineOutput) -> (r: Result<
    String,
    EngineError,
>)
    ensures
        out.success ==> (match r {
            Ok(log) => {
                &&& log@ == out.stdout@
                &&& final(container)@ == (ContainerV { run_logs: out.stdout@, ..old(container)@ })
            },
            Err(_) => false,
        }),
        !out.success ==> (match r {
            Ok(_) => false,
            Err(e) => {
                &&& e is RunFailure
                &&& e.message_view() == out.stderr@
                &&& *final(container) == *old(container)
            },
        }),
{
    if out.success {
        container.run_logs = out.stdout.clone();
        Ok(container.run_logs.clone())
    } else {
        Err(EngineError::RunFailure(out.stderr.clone()))
    }
}

/// The three fixed composite tags of initialization name distinct registry
/// entries.
proof fn lemma_fixed_keys_distinct()
    ensures
        composite_tag_view("hello-world"@, "latest"@) != composite_tag_view(
            "c_cpp_container"@,
            "latest"@,
        ),
        composite_tag_view("hello-world"@, "latest"@) != composite_tag_view(
            "cs_dotnet_container"@,
            "latest"@,
        ),
        composite_tag_view("c_cpp_container"@, "latest"@) != composite_tag_view(
            "cs_dotnet_container"@,
            "latest"@,
        ),
{
    reveal_strlit("hello-world");
    reveal_strlit("c_cpp_container");
    reveal_strlit("cs_dotnet_container");
    reveal_strlit("latest");
    reveal_strlit(":");
    assert(composite_tag_view("hello-world"@, "latest"@).len() == 18);
    assert(composite_tag_view("c_cpp_container"@, "latest"@).len() == 22);
    assert(composite_tag_view("cs_dotnet_container"@, "latest"@).len() == 26);
}

/// Drives the fixed lifecycle against any port: initialize, resolve the
/// requested image by its exact composite tag, instantiate and run a
/// container from a snapshot of it, then tear everything down. The first
/// failure at any stage aborts the remaining workflow; a missing registry
/// entry is a `LookupFailure`, returned only when initialization completed
/// and the key is genuinely absent from its results. On success both
/// registries end empty.
pub fn run_toolchain<E: EnginePort>(docker: &mut DockerCliWrapper<E>, image_key: &String) -> (r:
    Result<(), EngineError>)
    requires
        old(docker).inv(),
    ensures
        final(docker).inv(),
        (match r {
            Ok(()) => final(docker).containers_model().len() == 0
                && final(docker).images_model().len() == 0,
            Err(e) => e is LookupFailure ==> {
                &&& !reg_contains(final(docker).images_model(), image_key@)
                &&& reg_contains(
                    final(docker).images_model(),
                    composite_tag_view("hello-world"@, "latest"@),
                )
                &&& toolchain_entry_ok(
                    final(docker).images_model(),
                    "c_cpp_container"@,
                    c_cpp_containerfile_path(),
                )
                &&& toolchain_entry_ok(
                    final(docker).images_model(),
                    "cs_dotnet_container"@,
                    cs_dotnet_containerfile_path(),
                )
                &&& canary_registered(
                    old(docker).containers_model(),
                    final(docker).containers_model(),
                )
            },
        }),
{
    match docker.init() {
        Ok(()) => {},
        Err(e) => {
            return Err(e);
        },
    }
    let image = match docker.lookup_image(image_key) {
        Some(found) => found.duplicate(),
        None => {
            let mut m = "image not found in registry: ".to_owned();
            m.append(image_key.as_str());
            return Err(EngineError::LookupFailure(m));
        },
    };
    let mut container = Container::from_image(image);
    match docker.run_container(&mut container) {
        Ok(_) => {},
        Err(e) => {
            return Err(e);
        },
    }
    docker.cleanup()
}

} // verus!

