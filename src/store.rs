//! Where the store keeps things: the identifiers of a model variant and the
//! layout of blobs and manifests under the store's root directory.
use crate::digest::{render_digest, Blob};
use vstd::prelude::*;
use vstd::string::*;

verus! {

/// `a` followed by the path component `b`, with one separator between them.
pub open spec fn path_join(a: Seq<char>, b: Seq<char>) -> Seq<char> {
    if a.len() == 0 {
        b
    } else if a.last() == '/' {
        a + b
    } else {
        a.push('/') + b
    }
}

fn join(a: &String, b: &str) -> (r: String)
    ensures
        r@ == path_join(a@, b@),
{
    let n = a.as_str().unicode_len();
    if n == 0 {
        return String::from_str(b);
    }
    let mut out = a.clone();
    if a.as_str().get_char(n - 1) != '/' {
        out.append("/");
        proof {
            reveal_strlit("/");
            assert(a@ + "/"@ =~= a@.push('/'));
        }
    }
    out.append(b);
    out
}

/// Builds a non-empty name; an empty one is refused.
fn name_from(s: &str) -> (r: Result<String, ()>)
    ensures
        r is Ok <==> s@.len() > 0,
        r matches Ok(v) ==> v@ == s@,
{
    if s.unicode_len() == 0 {
        Err(())
    } else {
        Ok(String::from_str(s))
    }
}

/// The name of a model, such as `llama3`.
pub struct Model(String);

/// The tag of a model's variant, such as `8b`.
pub struct Variant(String);

/// The host of the registry that published a model.
pub struct Registry(String);

impl View for Model {
    type V = Seq<char>;

    closed spec fn view(&self) -> Seq<char> {
        self.0@
    }
}

impl View for Variant {
    type V = Seq<char>;

    closed spec fn view(&self) -> Seq<char> {
        self.0@
    }
}

impl View for Registry {
    type V = Seq<char>;

    closed spec fn view(&self) -> Seq<char> {
        self.0@
    }
}

impl Model {
    /// A model name; only the empty name is refused.
    pub fn parse(s: &str) -> (r: Result<Model, ()>)
        ensures
            r is Ok <==> s@.len() > 0,
            r matches Ok(m) ==> m@ == s@,
    {
        match name_from(s) {
            Ok(v) => Ok(Model(v)),
            Err(e) => Err(e),
        }
    }

    pub fn as_str(&self) -> (r: &str)
        ensures
            r@ == self@,
    {
        self.0.as_str()
    }
}

impl Variant {
    /// A variant tag; only the empty tag is refused.
    pub fn parse(s: &str) -> (r: Result<Variant, ()>)
        ensures
            r is Ok <==> s@.len() > 0,
            r matches Ok(m) ==> m@ == s@,
    {
        match name_from(s) {
            Ok(v) => Ok(Variant(v)),
            Err(e) => Err(e),
        }
    }

    pub fn as_str(&self) -> (r: &str)
        ensures
            r@ == self@,
    {
        self.0.as_str()
    }
}

impl Registry {
    /// A registry host; only the empty host is refused.
    pub fn parse(s: &str) -> (r: Result<Registry, ()>)
        ensures
            r is Ok <==> s@.len() > 0,
            r matches Ok(m) ==> m@ == s@,
    {
        match name_from(s) {
            Ok(v) => Ok(Registry(v)),
            Err(e) => Err(e),
        }
    }

    pub fn as_str(&self) -> (r: &str)
        ensures
            r@ == self@,
    {
        self.0.as_str()
    }
}

impl core::str::FromStr for Model {
    type Err = ();

    fn from_str(s: &str) -> Result<Model, ()> {
        Model::parse(s)
    }
}

impl core::str::FromStr for Variant {
    type Err = ();

    fn from_str(s: &str) -> Result<Variant, ()> {
        Variant::parse(s)
    }
}

impl core::str::FromStr for Registry {
    type Err = ();

    fn from_str(s: &str) -> Result<Registry, ()> {
        Registry::parse(s)
    }
}

impl Clone for Model {
    fn clone(&self) -> (r: Model)
        ensures
            r@ == self@,
    {
        Model(self.0.clone())
    }
}

impl Clone for Variant {
    fn clone(&self) -> (r: Variant)
        ensures
            r@ == self@,
    {
        Variant(self.0.clone())
    }
}

impl Clone for Registry {
    fn clone(&self) -> (r: Registry)
        ensures
            r@ == self@,
    {
        Registry(self.0.clone())
    }
}

impl PartialEq for Model {
    fn eq(&self, other: &Model) -> (r: bool)
        ensures
            r == (self@ == other@),
    {
        self.0 == other.0
    }
}

impl vstd::std_specs::cmp::PartialEqSpecImpl for Model {
    open spec fn obeys_eq_spec() -> bool {
        true
    }

    open spec fn eq_spec(&self, other: &Model) -> bool {
        self@ == other@
    }
}

impl PartialEq for Variant {
    fn eq(&self, other: &Variant) -> (r: bool)
        ensures
            r == (self@ == other@),
    {
        self.0 == other.0
    }
}

impl vstd::std_specs::cmp::PartialEqSpecImpl for Variant {
    open spec fn obeys_eq_spec() -> bool {
        true
    }

    open spec fn eq_spec(&self, other: &Variant) -> bool {
        self@ == other@
    }
}

impl PartialEq for Registry {
    fn eq(&self, other: &Registry) -> (r: bool)
        ensures
            r == (self@ == other@),
    {
        self.0 == other.0
    }
}

impl vstd::std_specs::cmp::PartialEqSpecImpl for Registry {
    open spec fn obeys_eq_spec() -> bool {
        true
    }

    open spec fn eq_spec(&self, other: &Registry) -> bool {
        self@ == other@
    }
}

/// The directory that holds all models: `<root>/models`.
pub open spec fn models_dir(root: Seq<char>) -> Seq<char> {
    path_join(root, "models"@)
}

/// The flat directory of blobs: `<root>/models/blobs`.
pub open spec fn blobs_dir(root: Seq<char>) -> Seq<char> {
    path_join(models_dir(root), "blobs"@)
}

/// The tree of manifests: `<root>/models/manifests`.
pub open spec fn manifests_dir(root: Seq<char>) -> Seq<char> {
    path_join(models_dir(root), "manifests"@)
}

/// Where a committed blob lives: `<root>/models/blobs/sha256-<hex>`.
pub open spec fn blob_file(root: Seq<char>, blob: Blob) -> Seq<char> {
    path_join(blobs_dir(root), render_digest(blob.bytes(), '-'))
}

/// Where a blob is written while it is being downloaded: the committed path
/// with a `.tmp` extension.
pub open spec fn blob_temp_file(root: Seq<char>, blob: Blob) -> Seq<char> {
    blob_file(root, blob) + ".tmp"@
}

/// Where the manifest of a model variant lives:
/// `<root>/models/manifests/<registry>/library/<model>/<variant>`.
pub open spec fn manifest_file(
    root: Seq<char>,
    registry: Seq<char>,
    model: Seq<char>,
    variant: Seq<char>,
) -> Seq<char> {
    path_join(
        path_join(path_join(path_join(manifests_dir(root), registry), "library"@), model),
        variant,
    )
}

/// A store of blobs and manifests under one root directory.
pub struct OllamaStore {
    path: String,
}

impl OllamaStore {
    /// The store rooted at `path`.
    pub fn new(path: String) -> (r: OllamaStore)
        ensures
            r.root() == path@,
    {
        OllamaStore { path }
    }

    /// The store's root directory.
    pub closed spec fn root(&self) -> Seq<char> {
        self.path@
    }

    pub fn root_path(&self) -> (r: &str)
        ensures
            r@ == self.root(),
    {
        self.path.as_str()
    }

    fn model_path(&self) -> (r: String)
        ensures
            r@ == models_dir(self.root()),
    {
        proof {
            reveal_strlit("models");
        }
        join(&self.path, "models")
    }

    pub fn blobs_path(&self) -> (r: String)
        ensures
            r@ == blobs_dir(self.root()),
    {
        proof {
            reveal_strlit("blobs");
        }
        join(&self.model_path(), "blobs")
    }

    pub fn manifests_path(&self) -> (r: String)
        ensures
            r@ == manifests_dir(self.root()),
    {
        proof {
            reveal_strlit("manifests");
        }
        join(&self.model_path(), "manifests")
    }

    pub fn manifest_registry_path(&self, registry: &Registry) -> (r: String)
        ensures
            r@ == path_join(manifests_dir(self.root()), registry@),
    {
        join(&self.manifests_path(), registry.as_str())
    }

    pub fn manifest_registry_model_path(&self, registry: &Registry, model: &Model) -> (r: String)
        ensures
            r@ == path_join(
                path_join(path_join(manifests_dir(self.root()), registry@), "library"@),
                model@,
            ),
    {
        proof {
            reveal_strlit("library");
        }
        let library = join(&self.manifest_registry_path(registry), "library");
        join(&library, model.as_str())
    }

    pub fn manifest_registry_model_variant_path(
        &self,
        registry: &Registry,
        model: &Model,
        variant: &Variant,
    ) -> (r: String)
        ensures
            r@ == manifest_file(self.root(), registry@, model@, variant@),
    {
        join(&self.manifest_registry_model_path(registry, model), variant.as_str())
    }

    pub fn blob_path(&self, blob: &Blob) -> (r: String)
        ensures
            r@ == blob_file(self.root(), *blob),
    {
        let name = blob.as_path_name();
        join(&self.blobs_path(), name.as_str())
    }

    pub fn blob_path_tmp(&self, blob: &Blob) -> (r: String)
        ensures
            r@ == blob_temp_file(self.root(), *blob),
    {
        let mut p = self.blob_path(blob);
        p.append(".tmp");
        proof {
            reveal_strlit(".tmp");
        }
        p
    }
}

} // verus!
