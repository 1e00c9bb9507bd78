//! Core registry: the digest engine and hash validation.

use vstd::prelude::*;
use vstd::string::{StrSliceExecFns, StringExecFns};
use vstd::utf8::encode_utf8;

use sha2::Digest;

use crate::decfmt::{dec_str_of, u64_be_bytes_of, u64_to_be_bytes, u64_to_dec_string};
use crate::hexstr::{hex_encode, hex_lower_of};

verus! {

/// The SHA-256 digest of a byte sequence, as computed by the `sha2` crate.
///
/// SHA-256 is a pure function of its input; nothing further is assumed of
/// the digest's value.
pub uninterp spec fn sha256_of(data: Seq<u8>) -> Seq<u8>;

/// Compute SHA-256 of arbitrary data (deterministic).
///
/// Relies on `sha2::Sha256`: a pure function of the input bytes that
/// always yields exactly 32 bytes of output.
#[verifier::external_body]
pub fn compute_sha256(data: &[u8]) -> (r: [u8; 32])
    ensures
        r@ == sha256_of(data@),
        r@.len() == 32,
{
    let mut hasher = sha2::Sha256::new();
    hasher.update(data);
    let result = hasher.finalize();
    let mut output = [0u8; 32];
    output.copy_from_slice(&result);
    output
}

/// Why an operation was rejected. Every failure leaves all state unchanged.
#[derive(Clone, Copy, Debug, PartialEq, Eq, Structural)]
pub enum AnchorError {
    /// A registration hash whose length is not exactly 32 bytes.
    InvalidHashLength,
    /// A namespace string that names none of the three anchor types.
    UnknownAnchorType,
    /// The hash is already registered under this namespace.
    AlreadyRegistered,
    /// A stored digest that is not valid hex for exactly 32 bytes.
    MalformedDigestHex,
}

impl AnchorError {
    /// The error's display text.
    pub open spec fn spec_message(self) -> Seq<char> {
        match self {
            AnchorError::InvalidHashLength => "Hash must be exactly 32 bytes (SHA-256)"@,
            AnchorError::UnknownAnchorType => "Unknown anchor type"@,
            AnchorError::AlreadyRegistered => "Hash already registered"@,
            AnchorError::MalformedDigestHex => "Payload hash is not valid 32-byte hex"@,
        }
    }

    /// Render the error as text.
    pub fn message(&self) -> (r: String)
        ensures
            r@ == self.spec_message(),
    {
        match self {
            AnchorError::InvalidHashLength => String::from_str(
                "Hash must be exactly 32 bytes (SHA-256)",
            ),
            AnchorError::UnknownAnchorType => String::from_str("Unknown anchor type"),
            AnchorError::AlreadyRegistered => String::from_str("Hash already registered"),
            AnchorError::MalformedDigestHex => String::from_str(
                "Payload hash is not valid 32-byte hex",
            ),
        }
    }
}

/// Validate that a hash is exactly 32 bytes.
pub fn validate_hash(hash: &[u8]) -> (b: bool)
    ensures
        b == (hash@.len() == 32),
{
    hash.len() == 32
}

/// The three independent anchor namespaces.
#[derive(Clone, Copy, Debug, PartialEq, Eq, Structural)]
pub enum AnchorType {
    /// Merkle root hashes
    Root,
    /// Claim score hashes
    ClaimScore,
    /// Equation proof hashes
    EquationProof,
}

/// The namespace's name, as stored in entries and used in queries.
pub open spec fn spec_anchor_type_name(t: AnchorType) -> Seq<char> {
    match t {
        AnchorType::Root => "root"@,
        AnchorType::ClaimScore => "claim_score"@,
        AnchorType::EquationProof => "equation_proof"@,
    }
}

/// Render the namespace's name.
pub fn anchor_type_name(t: AnchorType) -> (r: &'static str)
    ensures
        r@ == spec_anchor_type_name(t),
{
    match t {
        AnchorType::Root => "root",
        AnchorType::ClaimScore => "claim_score",
        AnchorType::EquationProof => "equation_proof",
    }
}

/// The namespace a name denotes, if any.
pub open spec fn spec_parse_anchor_type(s: Seq<char>) -> Option<AnchorType> {
    if s == "root"@ {
        Some(AnchorType::Root)
    } else if s == "claim_score"@ {
        Some(AnchorType::ClaimScore)
    } else if s == "equation_proof"@ {
        Some(AnchorType::EquationProof)
    } else {
        None
    }
}

/// Parse a namespace name.
pub fn parse_anchor_type(s: &String) -> (r: Option<AnchorType>)
    ensures
        r == spec_parse_anchor_type(s@),
{
    let root = String::from_str("root");
    let claim_score = String::from_str("claim_score");
    let equation_proof = String::from_str("equation_proof");
    if *s == root {
        Some(AnchorType::Root)
    } else if *s == claim_score {
        Some(AnchorType::ClaimScore)
    } else if *s == equation_proof {
        Some(AnchorType::EquationProof)
    } else {
        None
    }
}

/// Configuration for the anchor registry.
#[derive(Clone, Debug, PartialEq)]
pub struct Config {
    /// Registry administrator identity
    pub admin: String,
    /// Total anchors registered, across all namespaces
    pub total_anchors: u64,
}

/// An anchored hash entry with metadata; immutable once created.
#[derive(Clone, Debug, PartialEq)]
pub struct AnchorEntry {
    /// The 32-byte SHA-256 hash (hex-encoded)
    pub hash_hex: String,
    /// Anchor type: "root", "claim_score", or "equation_proof"
    pub anchor_type: String,
    /// Height at registration
    pub registered_at: u64,
    /// Registrant identity
    pub registrant: String,
}

/// Instantiation message - sets the admin identity.
#[derive(Clone, Debug, PartialEq)]
pub struct InstantiateMsg {
    pub admin: Option<String>,
}

/// Execute messages for hash registration.
#[derive(Clone, Debug, PartialEq)]
pub enum ExecuteMsg {
    /// Register a Merkle root hash (32 bytes)
    RegisterRoot { hash: Vec<u8> },
    /// Register a claim score hash (32 bytes)
    RegisterClaimScore { hash: Vec<u8> },
    /// Register an equation proof hash (32 bytes)
    RegisterEquationProof { hash: Vec<u8> },
}

/// Query messages for hash verification.
#[derive(Clone, Debug, PartialEq)]
pub enum QueryMsg {
    /// Verify whether a root hash is registered
    VerifyRoot { hash: Vec<u8> },
    /// Verify whether a claim score hash is registered
    VerifyClaimScore { hash: Vec<u8> },
    /// Verify whether an equation proof hash is registered
    VerifyEquationProof { hash: Vec<u8> },
    /// Get the registry configuration
    GetConfig {},
    /// Get anchor entry details for a named namespace
    GetAnchor { hash: Vec<u8>, anchor_type: String },
}

/// Response for verification queries.
#[derive(Clone, Debug, PartialEq)]
pub struct VerifyResponse {
    pub exists: bool,
    pub hash_hex: String,
    pub entry: Option<AnchorEntry>,
}

/// Response for the config query.
#[derive(Clone, Debug, PartialEq)]
pub struct ConfigResponse {
    pub admin: String,
    pub total_anchors: u64,
}

/// One key/value attribute of an acknowledgment, for external indexers.
#[derive(Clone, Debug, PartialEq)]
pub struct Attribute {
    pub key: String,
    pub value: String,
}

/// A structured acknowledgment of a successful operation.
#[derive(Clone, Debug, PartialEq)]
pub struct Response {
    pub attributes: Vec<Attribute>,
}

/// The answer to a query message.
#[derive(Clone, Debug, PartialEq)]
pub enum QueryAnswer {
    Verify(VerifyResponse),
    Config(ConfigResponse),
}

/// The deterministic anchor payload: the anchor type's UTF-8 bytes, a colon,
/// the hex digits of the hash as UTF-8 bytes, a colon, and the timestamp in
/// big-endian bytes.
pub open spec fn spec_anchor_payload(hash: Seq<u8>, anchor_type: Seq<char>, timestamp: u64) -> Seq<
    u8,
> {
    encode_utf8(anchor_type) + seq![58u8] + encode_utf8(hex_lower_of(hash)) + seq![58u8]
        + u64_be_bytes_of(timestamp)
}

/// Format a deterministic anchor payload for off-chain verification.
pub fn format_anchor_payload(hash: &[u8], anchor_type: &str, timestamp: u64) -> (r: Vec<u8>)
    ensures
        r@ == spec_anchor_payload(hash@, anchor_type@, timestamp),
{
    let mut payload: Vec<u8> = anchor_type.as_bytes_vec();
    payload.push(58);
    let hash_hex = hex_encode(hash);
    let mut hex_bytes = hash_hex.as_str().as_bytes_vec();
    payload.append(&mut hex_bytes);
    payload.push(58);
    let mut ts = u64_to_be_bytes(timestamp);
    payload.append(&mut ts);
    proof {
        assert(payload@ =~= spec_anchor_payload(hash@, anchor_type@, timestamp));
    }
    payload
}

/// One namespace's storage: key/entry pairs; the registry keeps the keys
/// pairwise distinct.
type Store = Vec<(Vec<u8>, AnchorEntry)>;

/// The mapping a namespace's pairs denote, later pairs taking precedence.
spec fn store_map(s: Seq<(Vec<u8>, AnchorEntry)>) -> Map<Seq<u8>, AnchorEntry>
    decreases s.len(),
{
    if s.len() == 0 {
        Map::empty()
    } else {
        store_map(s.drop_last()).insert(s.last().0@, s.last().1)
    }
}

/// Pairwise distinct keys.
spec fn distinct_keys(s: Seq<(Vec<u8>, AnchorEntry)>) -> bool {
    forall|m: int, n: int| 0 <= m < n < s.len() ==> (#[trigger] s[m]).0@ != (#[trigger] s[n]).0@
}

/// A key is in the denoted map exactly when some pair carries it.
proof fn lemma_store_map_contains(s: Seq<(Vec<u8>, AnchorEntry)>, k: Seq<u8>)
    ensures
        store_map(s).contains_key(k) <==> exists|i: int|
            0 <= i < s.len() && (#[trigger] s[i]).0@ == k,
    decreases s.len(),
{
    if s.len() == 0 {
    } else {
        lemma_store_map_contains(s.drop_last(), k);
        if store_map(s).contains_key(k) {
            if s.last().0@ == k {
                assert(s[s.len() - 1].0@ == k);
            } else {
                let i = choose|i: int|
                    0 <= i < s.drop_last().len() && (#[trigger] s.drop_last()[i]).0@ == k;
                assert(s[i].0@ == k);
            }
        }
        if exists|i: int| 0 <= i < s.len() && (#[trigger] s[i]).0@ == k {
            let i = choose|i: int| 0 <= i < s.len() && (#[trigger] s[i]).0@ == k;
            if i < s.len() - 1 {
                assert(s.drop_last()[i].0@ == k);
            }
        }
    }
}

/// With distinct keys, each pair's entry is the one its key maps to.
proof fn lemma_store_map_index(s: Seq<(Vec<u8>, AnchorEntry)>, i: int)
    requires
        distinct_keys(s),
        0 <= i < s.len(),
    ensures
        store_map(s).contains_key(s[i].0@),
        store_map(s)[s[i].0@] == s[i].1,
    decreases s.len(),
{
    if i == s.len() - 1 {
    } else {
        assert(distinct_keys(s.drop_last())) by {
            assert(forall|m: int, n: int|
                0 <= m < n < s.drop_last().len() ==> (#[trigger] s.drop_last()[m]).0@
                    != (#[trigger] s.drop_last()[n]).0@);
        }
        lemma_store_map_index(s.drop_last(), i);
        assert(s[i].0@ != s[s.len() - 1].0@);
        assert(s.drop_last()[i] == s[i]);
    }
}

/// With distinct keys, the denoted map has one element per pair.
proof fn lemma_store_map_len(s: Seq<(Vec<u8>, AnchorEntry)>)
    requires
        distinct_keys(s),
    ensures
        store_map(s).dom().finite(),
        store_map(s).len() == s.len(),
    decreases s.len(),
{
    if s.len() == 0 {
        assert(store_map(s).dom() =~= Set::<Seq<u8>>::empty());
    } else {
        assert(distinct_keys(s.drop_last())) by {
            assert(forall|m: int, n: int|
                0 <= m < n < s.drop_last().len() ==> (#[trigger] s.drop_last()[m]).0@
                    != (#[trigger] s.drop_last()[n]).0@);
        }
        lemma_store_map_len(s.drop_last());
        lemma_store_map_contains(s.drop_last(), s.last().0@);
        assert(!store_map(s.drop_last()).contains_key(s.last().0@)) by {
            if exists|i: int|
                0 <= i < s.drop_last().len() && (#[trigger] s.drop_last()[i]).0@ == s.last().0@ {
                let i = choose|i: int|
                    0 <= i < s.drop_last().len() && (#[trigger] s.drop_last()[i]).0@
                        == s.last().0@;
                assert(s[i].0@ == s[s.len() - 1].0@);
            }
        }
        assert(store_map(s).dom() =~= store_map(s.drop_last()).dom().insert(s.last().0@));
    }
}

/// Byte-for-byte equality of two byte slices.
fn bytes_eq(a: &[u8], b: &[u8]) -> (r: bool)
    ensures
        r == (a@ == b@),
{
    if a.len() != b.len() {
        return false;
    }
    let mut i: usize = 0;
    while i < a.len()
        invariant
            a@.len() == b@.len(),
            0 <= i <= a@.len(),
            forall|j: int| 0 <= j < i ==> a@[j] == b@[j],
        decreases a@.len() - i,
    {
        if a[i] != b[i] {
            return false;
        }
        i += 1;
    }
    proof {
        assert(a@ =~= b@);
    }
    true
}

/// Duplicate an entry value.
fn clone_entry(e: &AnchorEntry) -> (r: AnchorEntry)
    ensures
        r == *e,
{
    AnchorEntry {
        hash_hex: e.hash_hex.clone(),
        anchor_type: e.anchor_type.clone(),
        registered_at: e.registered_at,
        registrant: e.registrant.clone(),
    }
}

/// Scan one namespace for a key; the index where it sits, if anywhere.
fn find_key(store: &Store, hash: &[u8]) -> (r: Option<usize>)
    ensures
        r matches Some(i) ==> i < store@.len() && store@[i as int].0@ == hash@,
        r is None ==> !store_map(store@).contains_key(hash@),
{
    let mut i: usize = 0;
    let n = store.len();
    while i < n
        invariant
            n == store@.len(),
            0 <= i <= n,
            forall|j: int| 0 <= j < i ==> (#[trigger] store@[j]).0@ != hash@,
        decreases n - i,
    {
        if bytes_eq(store[i].0.as_slice(), hash) {
            return Some(i);
        }
        i += 1;
    }
    proof {
        lemma_store_map_contains(store@, hash@);
    }
    None
}

/// The deterministic, content-addressed anchor registry: three independent
/// namespaces mapping a 32-byte digest to its registration entry, plus the
/// aggregate configuration.
pub struct Registry {
    roots: Store,
    claim_scores: Store,
    equation_proofs: Store,
    config: Config,
}

impl Registry {
    /// The mapping one namespace holds, from digest bytes to entry.
    pub closed spec fn spec_namespace(self, t: AnchorType) -> Map<Seq<u8>, AnchorEntry> {
        match t {
            AnchorType::Root => store_map(self.roots@),
            AnchorType::ClaimScore => store_map(self.claim_scores@),
            AnchorType::EquationProof => store_map(self.equation_proofs@),
        }
    }

    /// The registry's configuration.
    pub closed spec fn spec_config(self) -> Config {
        self.config
    }

    /// Well-formed: distinct keys per namespace, and the counter equals the
    /// number of anchors held, across all namespaces.
    pub closed spec fn wf(self) -> bool {
        &&& distinct_keys(self.roots@)
        &&& distinct_keys(self.claim_scores@)
        &&& distinct_keys(self.equation_proofs@)
        &&& self.config.total_anchors == self.roots@.len() + self.claim_scores@.len()
            + self.equation_proofs@.len()
    }

    /// Create an empty registry with the given administrator.
    pub fn new(admin: String) -> (r: Registry)
        ensures
            r.wf(),
            r.spec_config().admin == admin,
            r.spec_config().total_anchors == 0,
            forall|t: AnchorType| (#[trigger] r.spec_namespace(t)) == Map::<
                Seq<u8>,
                AnchorEntry,
            >::empty(),
    {
        Registry {
            roots: Vec::new(),
            claim_scores: Vec::new(),
            equation_proofs: Vec::new(),
            config: Config { admin, total_anchors: 0 },
        }
    }

    /// Register a 32-byte hash in one namespace's store, stamping it with
    /// the height and the registrant, and count it; create-if-absent only.
    fn register_in(
        store: &mut Store,
        config: &mut Config,
        t: AnchorType,
        hash: Vec<u8>,
        registrant: String,
        height: u64,
    ) -> (r: Result<AnchorEntry, AnchorError>)
        requires
            distinct_keys(old(store)@),
            old(config).total_anchors < u64::MAX,
            hash@.len() == 32,
        ensures
            distinct_keys(final(store)@),
            final(config).admin == old(config).admin,
            store_map(old(store)@).contains_key(hash@) ==> r == Err::<AnchorEntry, AnchorError>(
                AnchorError::AlreadyRegistered,
            ) && final(store)@ == old(store)@ && *final(config) == *old(config),
            !store_map(old(store)@).contains_key(hash@) ==> ({
                &&& r matches Ok(e)
                &&& e.hash_hex@ == hex_lower_of(hash@)
                &&& e.anchor_type@ == spec_anchor_type_name(t)
                &&& e.registered_at == height
                &&& e.registrant == registrant
                &&& store_map(final(store)@) == store_map(old(store)@).insert(hash@, e)
                &&& final(store)@.len() == old(store)@.len() + 1
                &&& final(config).total_anchors == old(config).total_anchors + 1
            }),
    {
        match find_key(store, hash.as_slice()) {
            Some(i) => {
                proof {
                    lemma_store_map_contains(store@, hash@);
                }
                Err(AnchorError::AlreadyRegistered)
            },
            None => {
                let hash_hex = hex_encode(hash.as_slice());
                let entry = AnchorEntry {
                    hash_hex,
                    anchor_type: String::from_str(anchor_type_name(t)),
                    registered_at: height,
                    registrant,
                };
                let returned = clone_entry(&entry);
                let ghost old_pairs = store@;
                let ghost h = hash@;
                store.push((hash, entry));
                config.total_anchors = config.total_anchors + 1;
                proof {
                    assert(store@.drop_last() =~= old_pairs);
                    lemma_store_map_contains(old_pairs, h);
                    assert(distinct_keys(store@)) by {
                        assert(forall|j: int|
                            0 <= j < old_pairs.len() ==> (#[trigger] store@[j]).0@ != h);
                    }
                }
                Ok(returned)
            },
        }
    }

    /// Register a 32-byte hash under a namespace. Fails, changing nothing,
    /// when the hash is not exactly 32 bytes or is already registered there
    /// (re-registration is an explicit conflict, never a double count).
    ///
    /// The counter bound is a machine limit: one more anchor must still be
    /// countable in the 64-bit total.
    pub fn register(
        &mut self,
        anchor_type: AnchorType,
        hash: Vec<u8>,
        registrant: String,
        height: u64,
    ) -> (r: Result<AnchorEntry, AnchorError>)
        requires
            old(self).wf(),
            old(self).spec_config().total_anchors < u64::MAX,
        ensures
            final(self).wf(),
            final(self).spec_config().admin == old(self).spec_config().admin,
            hash@.len() != 32 ==> r == Err::<AnchorEntry, AnchorError>(
                AnchorError::InvalidHashLength,
            ) && *final(self) == *old(self),
            hash@.len() == 32 && old(self).spec_namespace(anchor_type).contains_key(hash@) ==> ({
                &&& r == Err::<AnchorEntry, AnchorError>(AnchorError::AlreadyRegistered)
                &&& final(self).spec_config() == old(self).spec_config()
                &&& forall|t: AnchorType| (#[trigger] final(self).spec_namespace(t)) == old(
                    self,
                ).spec_namespace(t)
            }),
            hash@.len() == 32 && !old(self).spec_namespace(anchor_type).contains_key(hash@) ==> ({
                &&& r matches Ok(e)
                &&& e.hash_hex@ == hex_lower_of(hash@)
                &&& e.anchor_type@ == spec_anchor_type_name(anchor_type)
                &&& e.registered_at == height
                &&& e.registrant == registrant
                &&& final(self).spec_namespace(anchor_type) == old(self).spec_namespace(
                    anchor_type,
                ).insert(hash@, e)
                &&& final(self).spec_config().total_anchors == old(
                    self,
                ).spec_config().total_anchors + 1
            }),
            forall|t: AnchorType| t != anchor_type ==> (#[trigger] final(self).spec_namespace(t))
                == old(self).spec_namespace(t),
    {
        if !validate_hash(hash.as_slice()) {
            return Err(AnchorError::InvalidHashLength);
        }
        match anchor_type {
            AnchorType::Root => Self::register_in(
                &mut self.roots,
                &mut self.config,
                anchor_type,
                hash,
                registrant,
                height,
            ),
            AnchorType::ClaimScore => Self::register_in(
                &mut self.claim_scores,
                &mut self.config,
                anchor_type,
                hash,
                registrant,
                height,
            ),
            AnchorType::EquationProof => Self::register_in(
                &mut self.equation_proofs,
                &mut self.config,
                anchor_type,
                hash,
                registrant,
                height,
            ),
        }
    }

    /// Look a hash up in one namespace; pure read, absence is not an error.
    pub fn lookup(&self, anchor_type: AnchorType, hash: &[u8]) -> (r: Option<AnchorEntry>)
        requires
            self.wf(),
        ensures
            r is Some <==> self.spec_namespace(anchor_type).contains_key(hash@),
            r matches Some(e) ==> e == self.spec_namespace(anchor_type)[hash@],
    {
        let store = match anchor_type {
            AnchorType::Root => &self.roots,
            AnchorType::ClaimScore => &self.claim_scores,
            AnchorType::EquationProof => &self.equation_proofs,
        };
        match find_key(store, hash) {
            Some(i) => {
                proof {
                    lemma_store_map_index(store@, i as int);
                }
                Some(clone_entry(&store[i].1))
            },
            None => None,
        }
    }

    /// The registry's configuration; pure read.
    pub fn get_config(&self) -> (r: Config)
        ensures
            r == self.spec_config(),
    {
        Config { admin: self.config.admin.clone(), total_anchors: self.config.total_anchors }
    }
}

/// The action name a registration acknowledges with.
pub open spec fn spec_register_action(t: AnchorType) -> Seq<char> {
    match t {
        AnchorType::Root => "register_root"@,
        AnchorType::ClaimScore => "register_claim_score"@,
        AnchorType::EquationProof => "register_equation_proof"@,
    }
}

/// Render the action name of a registration.
fn register_action(t: AnchorType) -> (r: &'static str)
    ensures
        r@ == spec_register_action(t),
{
    match t {
        AnchorType::Root => "register_root",
        AnchorType::ClaimScore => "register_claim_score",
        AnchorType::EquationProof => "register_equation_proof",
    }
}

/// The namespace an execute message registers into.
pub open spec fn spec_execute_msg_type(msg: ExecuteMsg) -> AnchorType {
    match msg {
        ExecuteMsg::RegisterRoot { .. } => AnchorType::Root,
        ExecuteMsg::RegisterClaimScore { .. } => AnchorType::ClaimScore,
        ExecuteMsg::RegisterEquationProof { .. } => AnchorType::EquationProof,
    }
}

/// The hash an execute message carries.
pub open spec fn spec_execute_msg_hash(msg: ExecuteMsg) -> Seq<u8> {
    match msg {
        ExecuteMsg::RegisterRoot { hash } => hash@,
        ExecuteMsg::RegisterClaimScore { hash } => hash@,
        ExecuteMsg::RegisterEquationProof { hash } => hash@,
    }
}

/// Initialize the registry: the administrator is the explicitly supplied
/// identity, or the initializing caller absent one; the counter starts at 0.
pub fn instantiate(msg: InstantiateMsg, sender: String) -> (r: (Registry, Response))
    ensures
        r.0.wf(),
        r.0.spec_config().total_anchors == 0,
        forall|t: AnchorType| (#[trigger] r.0.spec_namespace(t)) == Map::<
            Seq<u8>,
            AnchorEntry,
        >::empty(),
        msg.admin matches Some(a) ==> r.0.spec_config().admin == a,
        msg.admin is None ==> r.0.spec_config().admin == sender,
        r.1.attributes@.len() == 2,
        r.1.attributes@[0].key@ == "action"@,
        r.1.attributes@[0].value@ == "instantiate"@,
        r.1.attributes@[1].key@ == "admin"@,
        r.1.attributes@[1].value == r.0.spec_config().admin,
{
    let admin = match msg.admin {
        Some(a) => a,
        None => sender,
    };
    let registry = Registry::new(admin.clone());
    let mut attributes: Vec<Attribute> = Vec::new();
    attributes.push(
        Attribute { key: String::from_str("action"), value: String::from_str("instantiate") },
    );
    attributes.push(Attribute { key: String::from_str("admin"), value: admin });
    (registry, Response { attributes })
}

/// Dispatch a registration request: validate, register, and acknowledge
/// with the action name, hex hash, registrant, and height.
pub fn execute(registry: &mut Registry, height: u64, sender: String, msg: ExecuteMsg) -> (r:
    Result<Response, AnchorError>)
    requires
        old(registry).wf(),
        old(registry).spec_config().total_anchors < u64::MAX,
    ensures
        final(registry).wf(),
        final(registry).spec_config().admin == old(registry).spec_config().admin,
        spec_execute_msg_hash(msg).len() != 32 ==> r == Err::<Response, AnchorError>(
            AnchorError::InvalidHashLength,
        ) && *final(registry) == *old(registry),
        spec_execute_msg_hash(msg).len() == 32 && old(registry).spec_namespace(
            spec_execute_msg_type(msg),
        ).contains_key(spec_execute_msg_hash(msg)) ==> ({
            &&& r == Err::<Response, AnchorError>(AnchorError::AlreadyRegistered)
            &&& final(registry).spec_config() == old(registry).spec_config()
            &&& forall|t: AnchorType| (#[trigger] final(registry).spec_namespace(t)) == old(
                registry,
            ).spec_namespace(t)
        }),
        spec_execute_msg_hash(msg).len() == 32 && !old(registry).spec_namespace(
            spec_execute_msg_type(msg),
        ).contains_key(spec_execute_msg_hash(msg)) ==> ({
            let t = spec_execute_msg_type(msg);
            let h = spec_execute_msg_hash(msg);
            &&& r matches Ok(resp)
            &&& final(registry).spec_namespace(t).contains_key(h)
            &&& final(registry).spec_namespace(t)[h].hash_hex@ == hex_lower_of(h)
            &&& final(registry).spec_namespace(t)[h].anchor_type@ == spec_anchor_type_name(t)
            &&& final(registry).spec_namespace(t)[h].registered_at == height
            &&& final(registry).spec_namespace(t)[h].registrant == sender
            &&& final(registry).spec_namespace(t) == old(registry).spec_namespace(t).insert(
                h,
                final(registry).spec_namespace(t)[h],
            )
            &&& final(registry).spec_config().total_anchors == old(
                registry,
            ).spec_config().total_anchors + 1
            &&& resp.attributes@.len() == 4
            &&& resp.attributes@[0].key@ == "action"@
            &&& resp.attributes@[0].value@ == spec_register_action(t)
            &&& resp.attributes@[1].key@ == "hash"@
            &&& resp.attributes@[1].value@ == hex_lower_of(h)
            &&& resp.attributes@[2].key@ == "registrant"@
            &&& resp.attributes@[2].value == sender
            &&& resp.attributes@[3].key@ == "block_height"@
            &&& resp.attributes@[3].value@ == dec_str_of(height as nat)
        }),
        forall|t: AnchorType| t != spec_execute_msg_type(msg)
            ==> (#[trigger] final(registry).spec_namespace(t)) == old(registry).spec_namespace(t),
{
    let (anchor_type, hash) = match msg {
        ExecuteMsg::RegisterRoot { hash } => (AnchorType::Root, hash),
        ExecuteMsg::RegisterClaimScore { hash } => (AnchorType::ClaimScore, hash),
        ExecuteMsg::RegisterEquationProof { hash } => (AnchorType::EquationProof, hash),
    };
    match registry.register(anchor_type, hash, sender.clone(), height) {
        Err(e) => Err(e),
        Ok(entry) => {
            let mut attributes: Vec<Attribute> = Vec::new();
            attributes.push(
                Attribute {
                    key: String::from_str("action"),
                    value: String::from_str(register_action(anchor_type)),
                },
            );
            attributes.push(
                Attribute { key: String::from_str("hash"), value: entry.hash_hex.clone() },
            );
            attributes.push(Attribute { key: String::from_str("registrant"), value: sender });
            attributes.push(
                Attribute {
                    key: String::from_str("block_height"),
                    value: u64_to_dec_string(height),
                },
            );
            Ok(Response { attributes })
        },
    }
}

/// The answer a verification query owes: existence, the hex hash, and the
/// entry exactly when it is registered.
pub open spec fn spec_verify_answer(
    r: Result<QueryAnswer, AnchorError>,
    registry: Registry,
    t: AnchorType,
    h: Seq<u8>,
) -> bool {
    &&& r matches Ok(QueryAnswer::Verify(resp))
    &&& resp.exists == registry.spec_namespace(t).contains_key(h)
    &&& resp.hash_hex@ == hex_lower_of(h)
    &&& resp.entry is Some <==> registry.spec_namespace(t).contains_key(h)
    &&& (resp.entry matches Some(e) ==> e == registry.spec_namespace(t)[h])
}

/// Look a hash up in one namespace and report existence, the hex hash,
/// and the entry.
fn verify_hash(registry: &Registry, t: AnchorType, hash: &[u8]) -> (resp: VerifyResponse)
    requires
        registry.wf(),
    ensures
        resp.exists == registry.spec_namespace(t).contains_key(hash@),
        resp.hash_hex@ == hex_lower_of(hash@),
        resp.entry is Some <==> registry.spec_namespace(t).contains_key(hash@),
        resp.entry matches Some(e) ==> e == registry.spec_namespace(t)[hash@],
{
    let entry = registry.lookup(t, hash);
    let exists = entry.is_some();
    VerifyResponse { exists, hash_hex: hex_encode(hash), entry }
}

/// Dispatch a read request; pure, no state change. An unrecognized
/// namespace string on a generic lookup is an error, never silent absence.
pub fn query(registry: &Registry, msg: QueryMsg) -> (r: Result<QueryAnswer, AnchorError>)
    requires
        registry.wf(),
    ensures
        msg matches QueryMsg::VerifyRoot { hash } ==> spec_verify_answer(
            r,
            *registry,
            AnchorType::Root,
            hash@,
        ),
        msg matches QueryMsg::VerifyClaimScore { hash } ==> spec_verify_answer(
            r,
            *registry,
            AnchorType::ClaimScore,
            hash@,
        ),
        msg matches QueryMsg::VerifyEquationProof { hash } ==> spec_verify_answer(
            r,
            *registry,
            AnchorType::EquationProof,
            hash@,
        ),
        msg matches QueryMsg::GetConfig {  } ==> ({
            &&& r matches Ok(QueryAnswer::Config(c))
            &&& c.admin == registry.spec_config().admin
            &&& c.total_anchors == registry.spec_config().total_anchors
        }),
        msg matches QueryMsg::GetAnchor { hash, anchor_type } ==> ({
            &&& (spec_parse_anchor_type(anchor_type@) matches Some(t) ==> spec_verify_answer(
                r,
                *registry,
                t,
                hash@,
            ))
            &&& (spec_parse_anchor_type(anchor_type@) is None ==> r == Err::<
                QueryAnswer,
                AnchorError,
            >(AnchorError::UnknownAnchorType))
        }),
{
    match msg {
        QueryMsg::VerifyRoot { hash } => Ok(
            QueryAnswer::Verify(verify_hash(registry, AnchorType::Root, hash.as_slice())),
        ),
        QueryMsg::VerifyClaimScore { hash } => Ok(
            QueryAnswer::Verify(verify_hash(registry, AnchorType::ClaimScore, hash.as_slice())),
        ),
        QueryMsg::VerifyEquationProof { hash } => Ok(
            QueryAnswer::Verify(verify_hash(registry, AnchorType::EquationProof, hash.as_slice())),
        ),
        QueryMsg::GetConfig {  } => {
            let config = registry.get_config();
            Ok(
                QueryAnswer::Config(
                    ConfigResponse { admin: config.admin, total_anchors: config.total_anchors },
                ),
            )
        },
        QueryMsg::GetAnchor { hash, anchor_type } => {
            match parse_anchor_type(&anchor_type) {
                Some(t) => Ok(QueryAnswer::Verify(verify_hash(registry, t, hash.as_slice()))),
                None => Err(AnchorError::UnknownAnchorType),
            }
        },
    }
}

/// The counter counts exactly the anchors held: after any run of operations,
/// `total_anchors` equals the number of successfully registered hashes
/// across all namespaces.
pub proof fn lemma_total_anchors_counts(r: Registry)
    requires
        r.wf(),
    ensures
        r.spec_config().total_anchors == r.spec_namespace(AnchorType::Root).len()
            + r.spec_namespace(AnchorType::ClaimScore).len() + r.spec_namespace(
            AnchorType::EquationProof,
        ).len(),
{
    lemma_store_map_len(r.roots@);
    lemma_store_map_len(r.claim_scores@);
    lemma_store_map_len(r.equation_proofs@);
}

} // verus!
