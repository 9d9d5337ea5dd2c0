use vstd::prelude::*;

verus! {

/// Category of a stored artifact. Kind-dependent policy is written as exhaustive
/// matches over this enumeration.
#[derive(Debug, Clone, Copy, PartialEq, Eq, Structural)]
pub enum ArtifactKind {
    NeuralShard,
    NeuroRightsPolicy,
    EvolveStream,
    DonutLedger,
    BChainProof,
    Model,
    SovereignConfig,
    GenericData,
}

/// The four artifact-level rights flags.
#[derive(Debug, Clone, Copy, PartialEq, Eq, Structural)]
pub struct NeurorightsProfile {
    /// Privacy of the raw signal.
    pub mental_privacy: bool,
    /// Sensitivity of altered-state content.
    pub dreamstate_sensitive: bool,
    /// The artifact may never be traded or exported.
    pub soul_non_tradeable: bool,
    /// The artifact may not feed automated decisions.
    pub forbid_decision_use: bool,
}

/// A named unit of storage owned by one subject.
///
/// The numeric scores are kept as the bit patterns of IEEE-754 single-precision
/// values: the access rules never read them, they are only carried and reported.
#[derive(Debug, Clone)]
pub struct SovereignArtifact {
    /// Storage location; only the resolver and the gateway ever hold it.
    pub path: String,
    /// Owning subject.
    pub subject_id: String,
    pub kind: ArtifactKind,
    /// Delivery channels the artifact may be served over.
    pub routes: Vec<String>,
    /// Risk-of-harm score before, as a single-precision bit pattern.
    pub roh_before_bits: u32,
    /// Risk-of-harm score after, as a single-precision bit pattern.
    pub roh_after_bits: u32,
    pub neurorights: NeurorightsProfile,
    /// Cost metric, as a single-precision bit pattern.
    pub lifeforce_cost_bits: u32,
    /// Free-form governance labels.
    pub governance_tags: Vec<String>,
}

/// The mathematical model of an artifact: every field, strings as character sequences.
pub struct ArtifactView {
    pub path: Seq<char>,
    pub subject_id: Seq<char>,
    pub kind: ArtifactKind,
    pub routes: Seq<Seq<char>>,
    pub roh_before_bits: u32,
    pub roh_after_bits: u32,
    pub neurorights: NeurorightsProfile,
    pub lifeforce_cost_bits: u32,
    pub governance_tags: Seq<Seq<char>>,
}

/// The characters of each string of `v`, in order.
pub open spec fn texts(v: Seq<String>) -> Seq<Seq<char>> {
    v.map_values(|t: String| t@)
}

impl View for SovereignArtifact {
    type V = ArtifactView;

    open spec fn view(&self) -> ArtifactView {
        ArtifactView {
            path: self.path@,
            subject_id: self.subject_id@,
            kind: self.kind,
            routes: texts(self.routes@),
            roh_before_bits: self.roh_before_bits,
            roh_after_bits: self.roh_after_bits,
            neurorights: self.neurorights,
            lifeforce_cost_bits: self.lifeforce_cost_bits,
            governance_tags: texts(self.governance_tags@),
        }
    }
}

/// A copy of `v` with the same texts.
pub fn copy_texts(v: &Vec<String>) -> (r: Vec<String>)
    ensures
        texts(r@) == texts(v@),
{
    let mut r: Vec<String> = Vec::new();
    let mut i: usize = 0;
    while i < v.len()
        invariant
            i <= v@.len(),
            r@.len() == i,
            forall|j: int| 0 <= j < i ==> #[trigger] r@[j]@ == v@[j]@,
        decreases v@.len() - i,
    {
        r.push(v[i].clone());
        i = i + 1;
    }
    assert(texts(r@) =~= texts(v@));
    r
}

impl SovereignArtifact {
    /// An independent snapshot with the same model.
    pub fn snapshot(&self) -> (r: SovereignArtifact)
        ensures
            r@ == self@,
    {
        SovereignArtifact {
            path: self.path.clone(),
            subject_id: self.subject_id.clone(),
            kind: self.kind,
            routes: copy_texts(&self.routes),
            roh_before_bits: self.roh_before_bits,
            roh_after_bits: self.roh_after_bits,
            neurorights: self.neurorights,
            lifeforce_cost_bits: self.lifeforce_cost_bits,
            governance_tags: copy_texts(&self.governance_tags),
        }
    }
}

/// Kinds that may only be mutated through the elevated-authorization path.
pub open spec fn is_privileged(kind: ArtifactKind) -> bool {
    match kind {
        ArtifactKind::SovereignConfig => true,
        ArtifactKind::EvolveStream => true,
        ArtifactKind::DonutLedger => true,
        ArtifactKind::BChainProof => true,
        ArtifactKind::NeuralShard => false,
        ArtifactKind::NeuroRightsPolicy => false,
        ArtifactKind::Model => false,
        ArtifactKind::GenericData => false,
    }
}

/// Whether one of `items` reads exactly `text`.
pub open spec fn contains_text(items: Seq<Seq<char>>, text: Seq<char>) -> bool {
    exists|i: int| 0 <= i < items.len() && #[trigger] items[i] == text
}

/// Relies on `str`'s `==`: true exactly when both hold the same characters.
#[verifier::external_body]
pub(crate) fn same_text(a: &str, b: &str) -> (r: bool)
    ensures
        r == (a@ == b@),
{
    a == b
}

/// Relies on `str::ends_with` with a string pattern: true exactly when `suffix`
/// is a suffix of `s`.
#[verifier::external_body]
pub(crate) fn text_ends_with(s: &str, suffix: &str) -> (r: bool)
    ensures
        r == (suffix@.len() <= s@.len() && s@.subrange(s@.len() - suffix@.len(), s@.len() as int)
            == suffix@),
{
    s.ends_with(suffix)
}

/// An owned copy of `s`.
pub(crate) fn text(s: &str) -> (r: String)
    ensures
        r@ == s@,
{
    s.to_string()
}

/// Whether one of `items` reads exactly `wanted`.
pub fn contains_str(items: &Vec<String>, wanted: &str) -> (r: bool)
    ensures
        r == contains_text(texts(items@), wanted@),
{
    let mut i: usize = 0;
    while i < items.len()
        invariant
            i <= items@.len(),
            forall|j: int| 0 <= j < i ==> #[trigger] texts(items@)[j] != wanted@,
        decreases items@.len() - i,
    {
        if same_text(items[i].as_str(), wanted) {
            assert(texts(items@)[i as int] == wanted@);
            return true;
        }
        i = i + 1;
    }
    false
}

} // verus!
