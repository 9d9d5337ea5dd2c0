use vstd::prelude::*;

use crate::artifact::{text, ArtifactKind, ArtifactView, SovereignArtifact};
use crate::error::{ErrorView, FsError};
use crate::fs_handle::{acquire_refusal, FsHandle, FsMode};

verus! {

/// What external agents may ask for.
#[derive(Debug, Clone, Copy, PartialEq, Eq, Structural)]
pub enum AgentOperationKind {
    ReadSummary,
    ReadMetadata,
    AppendNote,
}

/// Agent-visible request. It names an artifact by logical id, never by location.
#[derive(Debug, Clone)]
pub struct AgentFsRequest {
    pub subject_id: String,
    pub artifact_id: String,
    pub op: AgentOperationKind,
    pub via_evolve_token: bool,
}

/// Structured payload of a successful response.
#[derive(Debug, Clone)]
pub enum ResponseData {
    /// `{summary: ...}` of a `ReadSummary`.
    Summary(String),
    /// The full artifact structure of a `ReadMetadata`.
    Metadata(SovereignArtifact),
}

/// Agent-visible response.
#[derive(Debug, Clone)]
pub struct AgentFsResponse {
    pub ok: bool,
    pub message: String,
    pub data: Option<ResponseData>,
}

/// Maps `(subject, logical id)` to an artifact. Pure lookup, no policy.
pub trait ArtifactResolver {
    /// The artifact mapped to the pair, if any.
    spec fn resolution(&self, subject_id: Seq<char>, artifact_id: Seq<char>) -> Option<
        ArtifactView,
    >;

    /// Returns the mapped artifact, which belongs to `subject_id`; fails with
    /// `NotFound` when nothing is mapped.
    fn resolve(&self, subject_id: &str, artifact_id: &str) -> (r: Result<SovereignArtifact, FsError>)
        ensures
            match r {
                Ok(a) => {
                    &&& self.resolution(subject_id@, artifact_id@) == Some(a@)
                    &&& a.subject_id@ == subject_id@
                },
                Err(e) => {
                    &&& self.resolution(subject_id@, artifact_id@) is None
                    &&& e@ is NotFound
                },
            },
    ;
}

/// Kinds whose content an agent may never have summarized.
pub open spec fn summary_blocked(kind: ArtifactKind) -> bool {
    kind == ArtifactKind::SovereignConfig || kind == ArtifactKind::BChainProof
}

/// Kinds an agent may never append to.
pub open spec fn append_blocked(kind: ArtifactKind) -> bool {
    kind == ArtifactKind::SovereignConfig || kind == ArtifactKind::NeuralShard
}

pub open spec fn summary_policy_message() -> Seq<char> {
    "Agent cannot read sovereign-config or proof artifacts"@
}

pub open spec fn append_policy_message() -> Seq<char> {
    "Agent cannot append to sovereign-config or raw neural shards"@
}

/// The note appended for logical id `id`.
pub open spec fn note_for(id: Seq<char>) -> Seq<char> {
    "\n# agent-note: "@ + id
}

/// Summary text of decoded content: a fixed prefix and at most its first 256 characters.
pub open spec fn summary_of(decoded: Seq<char>) -> Seq<char> {
    "summary(snippet): "@ + decoded.subrange(
        0,
        if decoded.len() < 256 {
            decoded.len() as int
        } else {
            256
        },
    )
}

/// What `String::from_utf8_lossy` decodes `bytes` to.
pub uninterp spec fn utf8_lossy(bytes: Seq<u8>) -> Seq<char>;

/// Relies on `String::from_utf8_lossy`: the decoded text is a function of the bytes
/// alone, and malformed sequences never make it fail.
#[verifier::external_body]
fn decode_lossy(bytes: &[u8]) -> (r: String)
    ensures
        r@ == utf8_lossy(bytes@),
{
    String::from_utf8_lossy(bytes).into_owned()
}

/// One step of serving a request. The gateway decides; the holder of the backing
/// store performs what `ReadContent` and `AppendNote` ask for, through the handle.
#[derive(Debug)]
pub enum GatewayStep {
    /// The request is answered.
    Done(Result<AgentFsResponse, FsError>),
    /// Read the whole content through the handle, then call `finish_summary`.
    ReadContent(FsHandle),
    /// Append the note's text to the end of the content through the handle, then
    /// call `finish_append`.
    AppendNote(FsHandle, String),
}

/// Whether `h` was granted on exactly these terms.
pub open spec fn granted(
    h: FsHandle,
    art: ArtifactView,
    mode: FsMode,
    caller: Seq<char>,
    via_evolve_token: bool,
) -> bool {
    &&& h.spec_artifact()@ == art
    &&& h.spec_mode() == mode
    &&& h.spec_caller() == caller
    &&& h.spec_via_evolve_token() == via_evolve_token
}

/// Whether `s` answers with an error whose view is `v`.
pub open spec fn fails_with(s: GatewayStep, v: ErrorView) -> bool {
    match s {
        GatewayStep::Done(Err(e)) => e@ == v,
        _ => false,
    }
}

/// The step owed for a request, given what the resolver maps its pair to.
/// The kind allowlist is consulted before any guard.
pub open spec fn step_for(
    resolved: Option<ArtifactView>,
    req: AgentFsRequest,
    s: GatewayStep,
) -> bool {
    match resolved {
        None => match s {
            GatewayStep::Done(Err(e)) => e@ is NotFound,
            _ => false,
        },
        Some(art) => match req.op {
            AgentOperationKind::ReadSummary => if summary_blocked(art.kind) {
                fails_with(s, ErrorView::Policy(summary_policy_message()))
            } else {
                match acquire_refusal(art, FsMode::ReadOnly, req.subject_id@, false) {
                    Some(v) => fails_with(s, v),
                    None => match s {
                        GatewayStep::ReadContent(h) => granted(
                            h,
                            art,
                            FsMode::ReadOnly,
                            req.subject_id@,
                            false,
                        ),
                        _ => false,
                    },
                }
            },
            AgentOperationKind::ReadMetadata => match s {
                GatewayStep::Done(Ok(resp)) => {
                    &&& resp.ok
                    &&& resp.message@ == "metadata-ok"@
                    &&& match resp.data {
                        Some(ResponseData::Metadata(a)) => a@ == art,
                        _ => false,
                    }
                },
                _ => false,
            },
            AgentOperationKind::AppendNote => if append_blocked(art.kind) {
                fails_with(s, ErrorView::Policy(append_policy_message()))
            } else {
                match acquire_refusal(
                    art,
                    FsMode::ReadWrite,
                    req.subject_id@,
                    req.via_evolve_token,
                ) {
                    Some(v) => fails_with(s, v),
                    None => match s {
                        GatewayStep::AppendNote(h, note) => {
                            &&& granted(
                                h,
                                art,
                                FsMode::ReadWrite,
                                req.subject_id@,
                                req.via_evolve_token,
                            )
                            &&& note@ == note_for(req.artifact_id@)
                        },
                        _ => false,
                    },
                }
            },
        },
    }
}

/// The operation-allowlist layer for untrusted callers.
pub struct NeuroxfsAgentAdapter<R> {
    resolver: R,
}

impl<R: ArtifactResolver> NeuroxfsAgentAdapter<R> {
    pub closed spec fn spec_resolver(&self) -> R {
        self.resolver
    }

    pub fn new(resolver: R) -> (r: Self)
        ensures
            r.spec_resolver() == resolver,
    {
        Self { resolver }
    }

    /// The resolver the gateway looks artifacts up with.
    pub fn resolver(&self) -> (r: &R)
        ensures
            *r == self.spec_resolver(),
    {
        &self.resolver
    }

    /// The summary of decoded text: `summary(snippet): ` and at most its first 256
    /// characters.
    pub fn summarize_text(decoded: &str) -> (r: String)
        ensures
            r@ == summary_of(decoded@),
    {
        let n = decoded.unicode_len();
        let k: usize = if n < 256 {
            n
        } else {
            256
        };
        let snippet = decoded.substring_char(0, k);
        text("summary(snippet): ").concat(snippet)
    }

    /// The summary of raw content, decoded lossily: malformed encoding is never an error.
    pub fn summarize_bytes(bytes: &[u8]) -> (r: String)
        ensures
            r@ == summary_of(utf8_lossy(bytes@)),
    {
        let decoded = decode_lossy(bytes);
        Self::summarize_text(decoded.as_str())
    }

    /// Resolves the artifact, applies the kind allowlist of the operation, and only
    /// then acquires a handle for it (a read-only one to summarize, a read-write one
    /// with the caller's elevated-authorization claim to append).
    pub fn begin_request(&self, req: &AgentFsRequest) -> (s: GatewayStep)
        ensures
            step_for(self.spec_resolver().resolution(req.subject_id@, req.artifact_id@), *req, s),
    {
        let art = match self.resolver.resolve(req.subject_id.as_str(), req.artifact_id.as_str()) {
            Ok(a) => a,
            Err(e) => {
                return GatewayStep::Done(Err(e));
            },
        };
        match req.op {
            AgentOperationKind::ReadSummary => {
                let blocked = match art.kind {
                    ArtifactKind::SovereignConfig => true,
                    ArtifactKind::BChainProof => true,
                    _ => false,
                };
                if blocked {
                    return GatewayStep::Done(
                        Err(
                            FsError::PolicyError(
                                text("Agent cannot read sovereign-config or proof artifacts"),
                            ),
                        ),
                    );
                }
                match FsHandle::open(art, FsMode::ReadOnly, req.subject_id.clone(), false) {
                    Ok(h) => GatewayStep::ReadContent(h),
                    Err(e) => GatewayStep::Done(Err(e)),
                }
            },
            AgentOperationKind::ReadMetadata => {
                GatewayStep::Done(
                    Ok(
                        AgentFsResponse {
                            ok: true,
                            message: text("metadata-ok"),
                            data: Some(ResponseData::Metadata(art)),
                        },
                    ),
                )
            },
            AgentOperationKind::AppendNote => {
                let blocked = match art.kind {
                    ArtifactKind::SovereignConfig => true,
                    ArtifactKind::NeuralShard => true,
                    _ => false,
                };
                if blocked {
                    return GatewayStep::Done(
                        Err(
                            FsError::PolicyError(
                                text("Agent cannot append to sovereign-config or raw neural shards"),
                            ),
                        ),
                    );
                }
                match FsHandle::open(
                    art,
                    FsMode::ReadWrite,
                    req.subject_id.clone(),
                    req.via_evolve_token,
                ) {
                    Ok(h) => {
                        let note = text("\n# agent-note: ").concat(req.artifact_id.as_str());
                        GatewayStep::AppendNote(h, note)
                    },
                    Err(e) => GatewayStep::Done(Err(e)),
                }
            },
        }
    }

    /// Completes a `ReadContent` step from the outcome of reading the content.
    pub fn finish_summary(read: Result<Vec<u8>, FsError>) -> (r: Result<AgentFsResponse, FsError>)
        ensures
            match read {
                Ok(bytes) => match r {
                    Ok(resp) => {
                        &&& resp.ok
                        &&& resp.message@ == "summary-ok"@
                        &&& match resp.data {
                            Some(ResponseData::Summary(s)) => s@ == summary_of(utf8_lossy(bytes@)),
                            _ => false,
                        }
                    },
                    Err(_) => false,
                },
                Err(e) => r == Err::<AgentFsResponse, FsError>(e),
            },
    {
        match read {
            Ok(bytes) => {
                let summary = Self::summarize_bytes(bytes.as_slice());
                Ok(
                    AgentFsResponse {
                        ok: true,
                        message: text("summary-ok"),
                        data: Some(ResponseData::Summary(summary)),
                    },
                )
            },
            Err(e) => Err(e),
        }
    }

    /// Completes an `AppendNote` step from the outcome of the write; success carries
    /// no payload.
    pub fn finish_append(written: Result<(), FsError>) -> (r: Result<AgentFsResponse, FsError>)
        ensures
            match written {
                Ok(()) => match r {
                    Ok(resp) => resp.ok && resp.message@ == "append-ok"@ && resp.data is None,
                    Err(_) => false,
                },
                Err(e) => r == Err::<AgentFsResponse, FsError>(e),
            },
    {
        match written {
            Ok(()) => Ok(AgentFsResponse { ok: true, message: text("append-ok"), data: None }),
            Err(e) => Err(e),
        }
    }
}

} // verus!
