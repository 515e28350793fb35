//! Manifests: the registry's description of one model variant, a config
//! artifact and an ordered list of layer artifacts.
use crate::digest::Blob;
use vstd::prelude::*;
use vstd::string::*;

verus! {

/// The media type of the layer that holds the model weights.
pub const MEDIA_TYPE_IMAGE_MODEL: &'static str = "application/vnd.ollama.image.model";

/// The media type of the layer that holds the license text.
pub const MEDIA_TYPE_IMAGE_LICENSE: &'static str = "application/vnd.ollama.image.license";

/// The media type of the layer that holds the prompt template.
pub const MEDIA_TYPE_IMAGE_TEMPLATE: &'static str = "application/vnd.ollama.image.template";

/// The media type of the layer that holds the run parameters.
pub const MEDIA_TYPE_IMAGE_PARAMS: &'static str = "application/vnd.ollama.image.params";

/// The config artifact of a manifest.
pub struct ManifestConfig {
    pub media_type: String,
    pub digest: Blob,
    pub size: u64,
}

/// One layer artifact of a manifest.
pub struct ManifestLayer {
    pub media_type: String,
    pub digest: Blob,
    pub size: u64,
    pub from: Option<String>,
}

/// A model variant: its config artifact and its layers, in order.
pub struct Manifest {
    pub schema_version: u64,
    pub media_type: String,
    pub config: ManifestConfig,
    pub layers: Vec<ManifestLayer>,
}

impl Clone for ManifestConfig {
    fn clone(&self) -> (r: ManifestConfig)
        ensures
            r.media_type@ == self.media_type@,
            r.digest == self.digest,
            r.size == self.size,
    {
        ManifestConfig { media_type: self.media_type.clone(), digest: self.digest, size: self.size }
    }
}

impl Clone for ManifestLayer {
    fn clone(&self) -> (r: ManifestLayer)
        ensures
            r.media_type@ == self.media_type@,
            r.digest == self.digest,
            r.size == self.size,
            r.from == self.from,
    {
        ManifestLayer {
            media_type: self.media_type.clone(),
            digest: self.digest,
            size: self.size,
            from: match &self.from {
                Some(f) => Some(f.clone()),
                None => None,
            },
        }
    }
}

/// The sum of the sizes of `layers`.
pub open spec fn layers_size(layers: Seq<ManifestLayer>) -> int
    decreases layers.len(),
{
    if layers.len() == 0 {
        0
    } else {
        layers_size(layers.drop_last()) + layers.last().size
    }
}

proof fn lemma_layers_size_monotone(layers: Seq<ManifestLayer>, i: int)
    requires
        0 <= i <= layers.len(),
    ensures
        layers_size(layers.take(i)) <= layers_size(layers),
        layers_size(layers) >= 0,
    decreases layers.len(),
{
    if layers.len() > 0 {
        if i < layers.len() {
            assert(layers.drop_last().take(i) =~= layers.take(i));
            lemma_layers_size_monotone(layers.drop_last(), i);
        } else {
            assert(layers.take(i) =~= layers);
            lemma_layers_size_monotone(layers.drop_last(), i - 1);
        }
    }
}

impl Manifest {
    /// The total size of the artifacts: the config's size plus every layer's.
    pub open spec fn total_size(&self) -> int {
        self.config.size + layers_size(self.layers@)
    }

    /// The digests of all artifacts: the config's, then each layer's in order.
    pub open spec fn artifact_digests(&self) -> Seq<Blob> {
        seq![self.config.digest] + self.layers@.map_values(|l: ManifestLayer| l.digest)
    }

    /// The total size of the artifacts, or `None` when it does not fit in a `u64`.
    pub fn size(&self) -> (r: Option<u64>)
        ensures
            r == (if self.total_size() <= u64::MAX {
                Some(self.total_size() as u64)
            } else {
                None::<u64>
            }),
    {
        let mut total: u64 = self.config.size;
        let mut i: usize = 0;
        while i < self.layers.len()
            invariant
                i <= self.layers@.len(),
                total == self.config.size + layers_size(self.layers@.take(i as int)),
            decreases self.layers@.len() - i,
        {
            proof {
                assert(self.layers@.take(i + 1).drop_last() =~= self.layers@.take(i as int));
            }
            match total.checked_add(self.layers[i].size) {
                Some(t) => {
                    total = t;
                },
                None => {
                    proof {
                        lemma_layers_size_monotone(self.layers@, i + 1);
                    }
                    return None;
                },
            }
            i = i + 1;
        }
        proof {
            assert(self.layers@.take(i as int) =~= self.layers@);
        }
        Some(total)
    }

    /// The digests of all artifacts: the config's first, then the layers' in order.
    pub fn all_digests(&self) -> (r: Vec<Blob>)
        ensures
            r@ == self.artifact_digests(),
    {
        let mut digests: Vec<Blob> = Vec::new();
        digests.push(self.config.digest);
        let mut i: usize = 0;
        while i < self.layers.len()
            invariant
                i <= self.layers@.len(),
                digests@ == seq![self.config.digest] + self.layers@.take(i as int).map_values(
                    |l: ManifestLayer| l.digest,
                ),
            decreases self.layers@.len() - i,
        {
            digests.push(self.layers[i].digest);
            i = i + 1;
            proof {
                assert(digests@ =~= seq![self.config.digest] + self.layers@.take(
                    i as int,
                ).map_values(|l: ManifestLayer| l.digest));
            }
        }
        proof {
            assert(self.layers@.take(i as int) =~= self.layers@);
        }
        digests
    }

    /// The position of the first layer whose media type is `ty`, if any.
    pub open spec fn media_type_index(&self, ty: Seq<char>) -> Option<int> {
        if exists|i: int| 0 <= i < self.layers@.len() && self.layers@[i].media_type@ == ty {
            Some(
                choose|i: int|
                    0 <= i < self.layers@.len() && self.layers@[i].media_type@ == ty && forall|
                        j: int,
                    |
                        0 <= j < i ==> self.layers@[j].media_type@ != ty,
            )
        } else {
            None
        }
    }

    /// The first layer whose media type is `ty`, if any.
    pub fn find_media_type(&self, ty: &str) -> (r: Option<&ManifestLayer>)
        ensures
            match self.media_type_index(ty@) {
                Some(i) => r == Some(&self.layers@[i]),
                None => r is None,
            },
    {
        let wanted = String::from_str(ty);
        let mut i: usize = 0;
        while i < self.layers.len()
            invariant
                wanted@ == ty@,
                i <= self.layers@.len(),
                forall|j: int| 0 <= j < i ==> self.layers@[j].media_type@ != ty@,
            decreases self.layers@.len() - i,
        {
            if self.layers[i].media_type == wanted {
                proof {
                    let k = choose|k: int|
                        0 <= k < self.layers@.len() && self.layers@[k].media_type@ == ty@
                            && forall|j: int| 0 <= j < k ==> self.layers@[j].media_type@ != ty@;
                    assert(self.layers@[i as int].media_type@ == ty@);
                    assert(!(k < i));
                    assert(!(k > i));
                }
                return Some(&self.layers[i]);
            }
            i = i + 1;
        }
        None
    }
}

/// The layers that running a model reads, found by media type.
#[derive(Clone, Copy, Debug)]
pub struct RunLayers {
    /// The model weights.
    pub model: Blob,
    /// The prompt template, when the manifest has one.
    pub template: Option<Blob>,
    /// The run parameters.
    pub params: Blob,
}

/// A layer that running a model needs and the manifest lacks.
#[derive(Clone, Copy, Debug, PartialEq, Eq, Structural)]
pub enum MissingLayer {
    /// No layer holds the model weights.
    Model,
    /// No layer holds the run parameters.
    Params,
}

/// The digest of the first layer of media type `ty`, if any.
pub open spec fn layer_digest(m: &Manifest, ty: Seq<char>) -> Option<Blob> {
    match m.media_type_index(ty) {
        Some(i) => Some(m.layers@[i].digest),
        None => None,
    }
}

impl Manifest {
    fn find_digest(&self, ty: &str) -> (r: Option<Blob>)
        ensures
            r == layer_digest(self, ty@),
    {
        match self.find_media_type(ty) {
            Some(l) => Some(l.digest),
            None => None,
        }
    }

    /// The layers to run the model: the weights and the parameters are
    /// needed, the template is optional. The first layer of each media type
    /// counts.
    pub fn run_layers(&self) -> (r: Result<RunLayers, MissingLayer>)
        ensures
            layer_digest(self, MEDIA_TYPE_IMAGE_MODEL@) is None ==> r == Err::<
                RunLayers,
                MissingLayer,
            >(MissingLayer::Model),
            layer_digest(self, MEDIA_TYPE_IMAGE_MODEL@) is Some && layer_digest(
                self,
                MEDIA_TYPE_IMAGE_PARAMS@,
            ) is None ==> r == Err::<RunLayers, MissingLayer>(MissingLayer::Params),
            r matches Ok(l) ==> Some(l.model) == layer_digest(self, MEDIA_TYPE_IMAGE_MODEL@)
                && Some(l.params) == layer_digest(self, MEDIA_TYPE_IMAGE_PARAMS@) && l.template
                == layer_digest(self, MEDIA_TYPE_IMAGE_TEMPLATE@),
            r is Ok <==> layer_digest(self, MEDIA_TYPE_IMAGE_MODEL@) is Some && layer_digest(
                self,
                MEDIA_TYPE_IMAGE_PARAMS@,
            ) is Some,
    {
        let model = match self.find_digest(MEDIA_TYPE_IMAGE_MODEL) {
            Some(b) => b,
            None => {
                return Err(MissingLayer::Model);
            },
        };
        let template = self.find_digest(MEDIA_TYPE_IMAGE_TEMPLATE);
        let params = match self.find_digest(MEDIA_TYPE_IMAGE_PARAMS) {
            Some(b) => b,
            None => {
                return Err(MissingLayer::Params);
            },
        };
        Ok(RunLayers { model, template, params })
    }
}

/// The digests that the names of a listing stand for, in order: each name in
/// the file-system form gives its digest; any other name is passed over.
pub open spec fn listed_digests(names: Seq<Seq<char>>) -> Seq<Seq<u8>>
    decreases names.len(),
{
    if names.len() == 0 {
        seq![]
    } else {
        let rest = listed_digests(names.drop_last());
        match crate::digest::parse_digest(names.last(), '-') {
            Ok(b) => rest.push(b),
            Err(_) => rest,
        }
    }
}

/// The blobs that a listing of the blobs directory names.
pub fn blobs_from_names(names: &Vec<String>) -> (r: Vec<Blob>)
    ensures
        r@.map_values(|b: Blob| b.bytes()) == listed_digests(
            names@.map_values(|s: String| s@),
        ),
{
    let mut out: Vec<Blob> = Vec::new();
    let mut i: usize = 0;
    while i < names.len()
        invariant
            i <= names@.len(),
            out@.map_values(|b: Blob| b.bytes()) == listed_digests(
                names@.take(i as int).map_values(|s: String| s@),
            ),
        decreases names@.len() - i,
    {
        let ghost before = out@;
        proof {
            assert(names@.take(i + 1).map_values(|s: String| s@).drop_last() =~= names@.take(
                i as int,
            ).map_values(|s: String| s@));
        }
        match Blob::from_path_name(names[i].as_str()) {
            Ok(b) => {
                out.push(b);
                proof {
                    assert(out@.map_values(|b: Blob| b.bytes()) =~= before.map_values(
                        |b: Blob| b.bytes(),
                    ).push(b.bytes()));
                }
            },
            Err(_) => {},
        }
        i = i + 1;
    }
    proof {
        assert(names@.take(i as int) =~= names@);
    }
    out
}

} // verus!
