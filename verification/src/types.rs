//! Identifiers and documents of the AT Protocol: DIDs and DID documents.

use vstd::prelude::*;
use crate::text::chars_of;
use vstd::string::*;
use vstd::utf8::*;

verus! {

/// Whether `c` may stand in the method of a DID.
pub open spec fn is_did_method_char(c: char) -> bool {
    'a' <= c <= 'z'
}

/// Whether `c` may stand at the end of a DID.
pub open spec fn is_did_last_char(c: char) -> bool {
    ||| 'a' <= c <= 'z'
    ||| 'A' <= c <= 'Z'
    ||| '0' <= c <= '9'
    ||| c == '.' || c == '_' || c == '-'
}

/// Whether `c` may stand in the method-specific identifier of a DID.
pub open spec fn is_did_id_char(c: char) -> bool {
    is_did_last_char(c) || c == ':' || c == '%'
}

/// The shape of a DID: `did:`, a method of lower-case letters, `:`, and an identifier
/// that does not end in `:` or `%`.
pub open spec fn is_did_syntax(s: Seq<char>) -> bool {
    &&& s.len() > 4
    &&& s[0] == 'd' && s[1] == 'i' && s[2] == 'd' && s[3] == ':'
    &&& exists|j: int|
        #![trigger s[j]]
        4 < j < s.len() - 1 && s[j] == ':' && (forall|i: int| 4 <= i < j ==> is_did_method_char(
            #[trigger] s[i],
        )) && (forall|i: int| j < i < s.len() ==> is_did_id_char(#[trigger] s[i]))
    &&& is_did_last_char(s[s.len() - 1])
}

/// The most bytes a DID may take.
pub const MAX_DID_BYTES: usize = 2048;

/// A decentralized identifier.
pub struct Did {
    value: String,
}

impl View for Did {
    type V = Seq<char>;

    closed spec fn view(&self) -> Seq<char> {
        self.value@
    }
}

/// The message of a DID that is too long.
pub open spec fn did_too_long_message() -> Seq<char> {
    seq!['D', 'I', 'D', ' ', 't', 'o', 'o', ' ', 'l', 'o', 'n', 'g']
}

/// The message of a DID whose shape is wrong.
pub open spec fn invalid_did_message() -> Seq<char> {
    seq!['I', 'n', 'v', 'a', 'l', 'i', 'd', ' ', 'D', 'I', 'D']
}

impl Did {
    /// Checks that `s` is a DID and wraps it.
    pub fn new(s: String) -> (r: Result<Did, String>)
        ensures
            encode_utf8(s@).len() > MAX_DID_BYTES ==> (r matches Err(e) && e@
                == did_too_long_message()),
            encode_utf8(s@).len() <= MAX_DID_BYTES ==> match r {
                Ok(d) => is_did_syntax(s@) && d@ == s@,
                Err(e) => !is_did_syntax(s@) && e@ == invalid_did_message(),
            },
    {
        proof {
            reveal_strlit("DID too long");
            reveal_strlit("Invalid DID");
        }
        if s.as_str().as_bytes().len() > MAX_DID_BYTES {
            return Err(String::from_str("DID too long"));
        }
        if check_did_syntax(s.as_str()) {
            Ok(Did { value: s })
        } else {
            Err(String::from_str("Invalid DID"))
        }
    }

    /// The DID as text.
    pub fn as_str(&self) -> (r: &str)
        ensures
            r@ == self@,
    {
        self.value.as_str()
    }
}

impl Clone for Did {
    fn clone(&self) -> (r: Self)
        ensures
            r == *self,
    {
        Did { value: self.value.clone() }
    }
}

fn did_last_char(c: char) -> (r: bool)
    ensures
        r == is_did_last_char(c),
{
    ('a' <= c && c <= 'z') || ('A' <= c && c <= 'Z') || ('0' <= c && c <= '9') || c == '.' || c
        == '_' || c == '-'
}

fn did_id_char(c: char) -> (r: bool)
    ensures
        r == is_did_id_char(c),
{
    did_last_char(c) || c == ':' || c == '%'
}

/// Whether `s` has the shape of a DID.
#[verifier::loop_isolation(false)]
pub fn check_did_syntax(s: &str) -> (r: bool)
    ensures
        r == is_did_syntax(s@),
{
    let cs = chars_of(s);
    let n = cs.len();
    if n <= 4 || cs[0] != 'd' || cs[1] != 'i' || cs[2] != 'd' || cs[3] != ':' {
        return false;
    }
    // the method runs up to the first colon after the prefix
    let mut j: usize = 4;
    while j < n && cs[j] != ':'
        invariant
            4 <= j <= n,
            n == cs@.len(),
            forall|i: int| 4 <= i < j ==> is_did_method_char(#[trigger] cs@[i]),
        decreases n - j,
    {
        if !('a' <= cs[j] && cs[j] <= 'z') {
            proof {
                assert forall|k: int| #![trigger cs@[k]] 4 < k < n - 1 && cs@[k] == ':' implies !(
                forall|i: int| 4 <= i < k ==> is_did_method_char(#[trigger] cs@[i])) by {
                    if k <= j {
                        if k < j {
                            assert(is_did_method_char(cs@[k]));
                        }
                    } else {
                        assert(!is_did_method_char(cs@[j as int]));
                    }
                }
            }
            return false;
        }
        j = j + 1;
    }
    if j == 4 {
        proof {
            assert forall|k: int| #![trigger cs@[k]] 4 < k < n - 1 && cs@[k] == ':' implies !(
            forall|i: int| 4 <= i < k ==> is_did_method_char(#[trigger] cs@[i])) by {
                assert(!is_did_method_char(cs@[4]));
            }
        }
        return false;
    }
    if j >= n - 1 {
        proof {
            assert forall|k: int| #![trigger cs@[k]] 4 < k < n - 1 && cs@[k] == ':' implies !(
            forall|i: int| 4 <= i < k ==> is_did_method_char(#[trigger] cs@[i])) by {
                assert(is_did_method_char(cs@[k]));
            }
        }
        return false;
    }
    let mut i: usize = j + 1;
    while i < n
        invariant
            j < i <= n,
            n == cs@.len(),
            forall|t: int| j < t < i ==> is_did_id_char(#[trigger] cs@[t]),
        decreases n - i,
    {
        if !did_id_char(cs[i]) {
            proof {
                assert forall|k: int| #![trigger cs@[k]] 4 < k < n - 1 && cs@[k] == ':' && (
                forall|t: int| 4 <= t < k ==> is_did_method_char(#[trigger] cs@[t])) implies !(
                forall|t: int| k < t < n ==> is_did_id_char(#[trigger] cs@[t])) by {
                    if k < j {
                        assert(is_did_method_char(cs@[k]));
                    } else if k > j {
                        assert(is_did_method_char(cs@[j as int]));
                    }
                }
            }
            return false;
        }
        i = i + 1;
    }
    let ok = did_last_char(cs[n - 1]);
    proof {
        if ok {
            assert(cs@[j as int] == ':');
        }
    }
    ok
}

/// A service that a DID document announces.
pub struct Service {
    pub id: String,
    pub type_: String,
    pub service_endpoint: String,
}

impl Clone for Service {
    fn clone(&self) -> (r: Self)
        ensures
            r == *self,
    {
        Service {
            id: self.id.clone(),
            type_: self.type_.clone(),
            service_endpoint: self.service_endpoint.clone(),
        }
    }
}

/// A verification method that a DID document announces: a key that speaks for the DID.
pub struct VerificationMethod {
    pub id: String,
    pub type_: String,
    pub controller: String,
    pub public_key_multibase: Option<String>,
}

impl Clone for VerificationMethod {
    fn clone(&self) -> (r: Self)
        ensures
            r == *self,
    {
        VerificationMethod {
            id: self.id.clone(),
            type_: self.type_.clone(),
            controller: self.controller.clone(),
            public_key_multibase: match &self.public_key_multibase {
                Some(k) => Some(k.clone()),
                None => None,
            },
        }
    }
}

/// A DID document: the identity record that a DID resolves to.
pub struct DidDocument {
    pub context: Option<Vec<String>>,
    pub id: String,
    pub also_known_as: Option<Vec<String>>,
    pub verification_method: Option<Vec<VerificationMethod>>,
    pub service: Option<Vec<Service>>,
}

/// What a DID document says.
pub struct DidDocumentView {
    pub context: Option<Seq<String>>,
    pub id: Seq<char>,
    pub also_known_as: Option<Seq<String>>,
    pub verification_method: Option<Seq<VerificationMethod>>,
    pub service: Option<Seq<Service>>,
}

impl View for DidDocument {
    type V = DidDocumentView;

    open spec fn view(&self) -> DidDocumentView {
        DidDocumentView {
            context: match self.context {
                Some(v) => Some(v@),
                None => None,
            },
            id: self.id@,
            also_known_as: match self.also_known_as {
                Some(v) => Some(v@),
                None => None,
            },
            verification_method: match self.verification_method {
                Some(v) => Some(v@),
                None => None,
            },
            service: match self.service {
                Some(v) => Some(v@),
                None => None,
            },
        }
    }
}

impl Clone for DidDocument {
    fn clone(&self) -> (r: Self)
        ensures
            r@ == self@,
    {
        let context = match &self.context {
            Some(v) => Some(v.clone()),
            None => None,
        };
        let also_known_as = match &self.also_known_as {
            Some(v) => Some(v.clone()),
            None => None,
        };
        let verification_method = match &self.verification_method {
            Some(v) => {
                let c = v.clone();
                assert(c@ =~= v@);
                Some(c)
            },
            None => None,
        };
        let service = match &self.service {
            Some(v) => {
                let c = v.clone();
                assert(c@ =~= v@);
                Some(c)
            },
            None => None,
        };
        proof {
            if let Some(v) = &self.also_known_as {
                assert(also_known_as.unwrap()@ =~= v@);
            }
            if let Some(v) = &self.context {
                assert(context.unwrap()@ =~= v@);
            }
        }
        DidDocument { context, id: self.id.clone(), also_known_as, verification_method, service }
    }
}

/// The fragment that names a personal data server among the services.
pub open spec fn pds_fragment() -> Seq<char> {
    seq!['#', 'a', 't', 'p', 'r', 'o', 't', 'o', '_', 'p', 'd', 's']
}

/// The type of a personal data server service.
pub open spec fn pds_type() -> Seq<char> {
    "AtprotoPersonalDataServer"@
}

/// Whether `s` is the service with fragment `id` and type `ty` in the document `doc_id`.
pub open spec fn service_matches(doc_id: Seq<char>, s: Service, id: Seq<char>, ty: Seq<char>) -> bool {
    (s.id@ == id || s.id@ == doc_id + id) && s.type_@ == ty
}

/// The endpoint of the first service in `services` that matches.
pub open spec fn first_service_endpoint(
    doc_id: Seq<char>,
    services: Seq<Service>,
    id: Seq<char>,
    ty: Seq<char>,
) -> Option<Seq<char>>
    decreases services.len(),
{
    if services.len() == 0 {
        None
    } else if service_matches(doc_id, services[0], id, ty) {
        Some(services[0].service_endpoint@)
    } else {
        first_service_endpoint(doc_id, services.drop_first(), id, ty)
    }
}

/// The endpoint of the personal data server that the document names, if any.
pub open spec fn spec_pds_endpoint(doc: DidDocumentView) -> Option<Seq<char>> {
    match doc.service {
        Some(services) => first_service_endpoint(doc.id, services, pds_fragment(), pds_type()),
        None => None,
    }
}

impl DidDocument {
    /// The endpoint of the service with fragment `id` and type `ty`.
    #[verifier::loop_isolation(false)]
    pub fn get_service_endpoint(&self, id: &str, ty: &str) -> (r: Option<String>)
        ensures
            match r {
                Some(e) => self.service matches Some(ss) && first_service_endpoint(
                    self.id@,
                    ss@,
                    id@,
                    ty@,
                ) == Some(e@),
                None => self.service matches Some(ss) ==> first_service_endpoint(
                    self.id@,
                    ss@,
                    id@,
                    ty@,
                ) is None,
            },
    {
        let id_s = String::from_str(id);
        let ty_s = String::from_str(ty);
        let mut full_id = self.id.clone();
        full_id.append(id);
        match &self.service {
            None => None,
            Some(services) => {
                let mut i: usize = 0;
                assert(services@.skip(0) =~= services@);
                while i < services.len()
                    invariant
                        i <= services@.len(),
                        first_service_endpoint(self.id@, services@, id@, ty@)
                            == first_service_endpoint(
                            self.id@,
                            services@.skip(i as int),
                            id@,
                            ty@,
                        ),
                    decreases services@.len() - i,
                {
                    let s = &services[i];
                    assert(services@.skip(i as int)[0] == services@[i as int]);
                    assert(services@.skip(i as int).drop_first() =~= services@.skip(i + 1));
                    if (s.id == id_s || s.id == full_id) && s.type_ == ty_s {
                        return Some(s.service_endpoint.clone());
                    }
                    i = i + 1;
                }
                None
            },
        }
    }

    /// The endpoint of the personal data server that the document names, if any.
    pub fn get_pds_endpoint(&self) -> (r: Option<String>)
        ensures
            match r {
                Some(e) => spec_pds_endpoint(self@) == Some(e@),
                None => spec_pds_endpoint(self@) is None,
            },
    {
        proof {
            reveal_strlit("#atproto_pds");
            reveal_strlit("AtprotoPersonalDataServer");
            assert("#atproto_pds"@ =~= pds_fragment());
        }
        self.get_service_endpoint("#atproto_pds", "AtprotoPersonalDataServer")
    }
}

} // verus!
