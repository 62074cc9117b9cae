//! Entity model: the value types describing what is built and run.
//!
//! `Image` and `Container` are plain data holders; `Container::from_image`
//! is the only constructor with behavior (it snapshots an image). `File`
//! describes a static asset to be materialized to disk before a build.

use vstd::prelude::*;
use vstd::string::StringExecFns;

verus! {

/// Mathematical value of an `Image`: every field as a sequence.
pub ghost struct ImageV {
    pub name: Seq<char>,
    pub tag: Seq<char>,
    pub containerfile_path: Seq<char>,
    pub build_logs: Seq<char>,
    pub build_args: Seq<Seq<char>>,
    pub build_secrets: Seq<(Seq<char>, Seq<char>)>,
}

/// Mathematical value of a `Container`.
pub ghost struct ContainerV {
    pub name: Seq<char>,
    pub image: ImageV,
    pub run_args: Seq<Seq<char>>,
    pub start_commands: Seq<Seq<char>>,
    pub environment_variables: Seq<(Seq<char>, Seq<char>)>,
    pub volumes: Seq<(Seq<char>, Seq<char>)>,
    pub run_logs: Seq<char>,
}

/// The sequence of character sequences held by a vector of strings.
pub open spec fn strings_view(s: Seq<String>) -> Seq<Seq<char>> {
    s.map_values(|x: String| x@)
}

/// The sequence of key/value character sequences held by an association list.
/// Association lists stand in for string-keyed mappings.
pub open spec fn pairs_view(s: Seq<(String, String)>) -> Seq<(Seq<char>, Seq<char>)> {
    s.map_values(|p: (String, String)| (p.0@, p.1@))
}

/// Whether a mapping's keys are pairwise distinct. The entity model's
/// mappings (`build_secrets`, `environment_variables`, `volumes`) keep their
/// keys unique; the constructor establishes it, and since this layer
/// performs no validation, keeping it is the charge of whoever fills them.
pub open spec fn pairs_keys_unique(s: Seq<(Seq<char>, Seq<char>)>) -> bool {
    forall|i: int, j: int| 0 <= i < j < s.len() ==> s[i].0 != s[j].0
}

/// Freshly constructed metadata vectors hold empty sequences.
pub proof fn lemma_empty_metadata_views()
    ensures
        strings_view(Seq::<String>::empty()) == Seq::<Seq<char>>::empty(),
        pairs_view(Seq::<(String, String)>::empty()) == Seq::<(Seq<char>, Seq<char>)>::empty(),
{
    assert(strings_view(Seq::<String>::empty()) =~= Seq::<Seq<char>>::empty());
    assert(pairs_view(Seq::<(String, String)>::empty()) =~= Seq::<(Seq<char>, Seq<char>)>::empty());
}

/// An image descriptor: identity is `name` + `tag`; `build_logs` holds the
/// captured stdout of the most recent successful build. `build_secrets` is
/// reserved and not yet wired into the build invocation.
#[derive(Debug, Clone)]
pub struct Image {
    pub name: String,
    pub tag: String,
    pub containerfile_path: String,
    pub build_logs: String,
    pub build_args: Vec<String>,
    pub build_secrets: Vec<(String, String)>,
}

impl View for Image {
    type V = ImageV;

    open spec fn view(&self) -> ImageV {
        ImageV {
            name: self.name@,
            tag: self.tag@,
            containerfile_path: self.containerfile_path@,
            build_logs: self.build_logs@,
            build_args: strings_view(self.build_args@),
            build_secrets: pairs_view(self.build_secrets@),
        }
    }
}

/// A static asset: a `(path, content)` pair to be written to disk before a
/// build. Stateless and write-once.
#[derive(Debug, Clone)]
pub struct File {
    pub path: String,
    pub content: String,
}

/// A container descriptor. It owns a full copy of the image it was
/// instantiated from, so it is independent of later mutation of the source
/// image. `start_commands`, `environment_variables` and `volumes` are
/// reserved and not yet passed to the engine.
#[derive(Debug, Clone)]
pub struct Container {
    pub name: String,
    pub image: Image,
    pub run_args: Vec<String>,
    pub start_commands: Vec<String>,
    pub environment_variables: Vec<(String, String)>,
    pub volumes: Vec<(String, String)>,
    pub run_logs: String,
}

impl View for Container {
    type V = ContainerV;

    open spec fn view(&self) -> ContainerV {
        ContainerV {
            name: self.name@,
            image: self.image@,
            run_args: strings_view(self.run_args@),
            start_commands: strings_view(self.start_commands@),
            environment_variables: pairs_view(self.environment_variables@),
            volumes: pairs_view(self.volumes@),
            run_logs: self.run_logs@,
        }
    }
}

/// The canonical `"name:tag"` registry key of an image.
pub open spec fn composite_tag_view(name: Seq<char>, tag: Seq<char>) -> Seq<char> {
    name + ":"@ + tag
}

/// Composes the canonical `"name:tag"` form used as the registry key.
pub fn composite_tag(name: &String, tag: &String) -> (r: String)
    ensures
        r@ == composite_tag_view(name@, tag@),
{
    let mut r = name.as_str().to_owned();
    r.append(":");
    r.append(tag.as_str());
    r
}

/// Copies a vector of strings element by element.
pub fn copy_strings(v: &Vec<String>) -> (r: Vec<String>)
    ensures
        strings_view(r@) == strings_view(v@),
        r@.len() == v@.len(),
{
    let mut r: Vec<String> = Vec::new();
    let mut i: usize = 0;
    while i < v.len()
        invariant
            i <= v@.len(),
            r@.len() == i,
            forall|j: int| 0 <= j < i ==> r@[j]@ == v@[j]@,
        decreases v@.len() - i,
    {
        r.push(v[i].clone());
        i += 1;
    }
    proof {
        assert(strings_view(r@) =~= strings_view(v@));
    }
    r
}

/// Copies an association list element by element.
pub fn copy_pairs(v: &Vec<(String, String)>) -> (r: Vec<(String, String)>)
    ensures
        pairs_view(r@) == pairs_view(v@),
        r@.len() == v@.len(),
{
    let mut r: Vec<(String, String)> = Vec::new();
    let mut i: usize = 0;
    while i < v.len()
        invariant
            i <= v@.len(),
            r@.len() == i,
            forall|j: int| 0 <= j < i ==> r@[j].0@ == v@[j].0@ && r@[j].1@ == v@[j].1@,
        decreases v@.len() - i,
    {
        let p = &v[i];
        r.push((p.0.clone(), p.1.clone()));
        i += 1;
    }
    proof {
        assert(pairs_view(r@) =~= pairs_view(v@));
    }
    r
}

impl Image {
    /// Copies the image field by field, preserving its mathematical value.
    pub fn duplicate(&self) -> (r: Image)
        ensures
            r@ == self@,
    {
        Image {
            name: self.name.clone(),
            tag: self.tag.clone(),
            containerfile_path: self.containerfile_path.clone(),
            build_logs: self.build_logs.clone(),
            build_args: copy_strings(&self.build_args),
            build_secrets: copy_pairs(&self.build_secrets),
        }
    }

    /// The composite `"name:tag"` key of this image.
    pub fn key(&self) -> (r: String)
        ensures
            r@ == composite_tag_view(self@.name, self@.tag),
    {
        composite_tag(&self.name, &self.tag)
    }
}

impl Container {
    /// Instantiates a container from an image: the container's name is the
    /// image's name, it owns the image, and every other field starts empty.
    pub fn from_image(image: Image) -> (r: Self)
        ensures
            r@.name == image@.name,
            r@.image == image@,
            r@.run_args == Seq::<Seq<char>>::empty(),
            r@.start_commands == Seq::<Seq<char>>::empty(),
            r@.environment_variables == Seq::<(Seq<char>, Seq<char>)>::empty(),
            r@.volumes == Seq::<(Seq<char>, Seq<char>)>::empty(),
            r@.run_logs == Seq::<char>::empty(),
            pairs_keys_unique(r@.environment_variables),
            pairs_keys_unique(r@.volumes),
    {
        let c = Container {
            name: image.name.clone(),
            image,
            run_args: Vec::new(),
            start_commands: Vec::new(),
            environment_variables: Vec::new(),
            volumes: Vec::new(),
            run_logs: String::new(),
        };
        proof {
            lemma_empty_metadata_views();
        }
        c
    }

    /// Copies the container field by field, preserving its mathematical value.
    pub fn duplicate(&self) -> (r: Container)
        ensures
            r@ == self@,
    {
        Container {
            name: self.name.clone(),
            image: self.image.duplicate(),
            run_args: copy_strings(&self.run_args),
            start_commands: copy_strings(&self.start_commands),
            environment_variables: copy_pairs(&self.environment_variables),
            volumes: copy_pairs(&self.volumes),
            run_logs: self.run_logs.clone(),
        }
    }
}

} // verus!
