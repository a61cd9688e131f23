//! Typed identifier newtypes for every domain entity.
//!
//! Each identifier carries the canonical text form of a freshly minted
//! UUID: 36 characters, lowercase hexadecimal with hyphens at the four
//! fixed positions. Distinct wrapper types keep identifiers of different
//! entities from being mixed up at compile time.

use vstd::prelude::*;

use crate::text::is_lower_hex_char;

verus! {

/// Whether position `i` of a canonical identifier text holds the right
/// kind of character: a hyphen at the four separator positions, a
/// lowercase hexadecimal digit everywhere else.
pub open spec fn uuid_char_ok(s: Seq<char>, i: int) -> bool {
    if i == 8 || i == 13 || i == 18 || i == 23 {
        s[i] == '-'
    } else {
        is_lower_hex_char(s[i])
    }
}

/// Canonical identifier text: the hyphenated lowercase form, 36 characters.
pub open spec fn is_uuid_text(s: Seq<char>) -> bool {
    s.len() == 36 && forall|i: int| 0 <= i < 36 ==> #[trigger] uuid_char_ok(s, i)
}

/// Relies on `uuid::Uuid::new_v4` and its `Display` form: a fresh random
/// identifier rendered as 36 hyphenated lowercase hexadecimal characters.
/// Nothing can be promised about which identifier comes back.
#[verifier::external_body]
fn fresh_uuid_text() -> (r: String)
    ensures
        is_uuid_text(r@),
{
    uuid::Uuid::new_v4().to_string()
}

/// Runtime check matching `is_uuid_text`.
fn check_uuid_text(s: &str) -> (r: bool)
    ensures
        r == is_uuid_text(s@),
{
    let n = s.unicode_len();
    if n != 36 {
        return false;
    }
    let mut i: usize = 0;
    while i < 36
        invariant
            s@.len() == 36,
            i <= 36,
            forall|j: int| 0 <= j < i ==> #[trigger] uuid_char_ok(s@, j),
        decreases 36 - i,
    {
        let c = s.get_char(i);
        let ok = if i == 8 || i == 13 || i == 18 || i == 23 {
            c == '-'
        } else {
            ('0' <= c && c <= '9') || ('a' <= c && c <= 'f')
        };
        if !ok {
            assert(!uuid_char_ok(s@, i as int));
            return false;
        }
        assert(uuid_char_ok(s@, i as int));
        i = i + 1;
    }
    true
}

/// Unique identifier for a tenant.
#[derive(Debug, Hash)]
pub struct TenantId {
    text: String,
}

impl View for TenantId {
    type V = Seq<char>;

    closed spec fn view(&self) -> Seq<char> {
        self.text@
    }
}

impl Clone for TenantId {
    fn clone(&self) -> (res: Self)
        ensures
            res == *self,
    {
        TenantId { text: self.text.clone() }
    }
}

impl PartialEq for TenantId {
    fn eq(&self, other: &TenantId) -> bool {
        self.text == other.text
    }
}

impl vstd::std_specs::cmp::PartialEqSpecImpl for TenantId {
    open spec fn obeys_eq_spec() -> bool {
        true
    }

    open spec fn eq_spec(&self, other: &TenantId) -> bool {
        self@ == other@
    }
}

impl TenantId {
    /// Mint a fresh random identifier.
    pub fn new() -> (r: Self)
        ensures
            is_uuid_text(r@),
    {
        TenantId { text: fresh_uuid_text() }
    }

    /// Accept exactly the canonical text form of an identifier.
    pub fn parse(s: &str) -> (r: Option<Self>)
        ensures
            match r {
                Some(id) => id@ == s@ && is_uuid_text(s@),
                None => !is_uuid_text(s@),
            },
    {
        if check_uuid_text(s) {
            Some(TenantId { text: s.to_owned() })
        } else {
            None
        }
    }

    /// The identifier's text form.
    pub fn to_text(&self) -> (r: String)
        ensures
            r@ == self@,
    {
        self.text.clone()
    }
}

/// Unique identifier for an agent instance.
#[derive(Debug, Hash)]
pub struct AgentId {
    text: String,
}

impl View for AgentId {
    type V = Seq<char>;

    closed spec fn view(&self) -> Seq<char> {
        self.text@
    }
}

impl Clone for AgentId {
    fn clone(&self) -> (res: Self)
        ensures
            res == *self,
    {
        AgentId { text: self.text.clone() }
    }
}

impl PartialEq for AgentId {
    fn eq(&self, other: &AgentId) -> bool {
        self.text == other.text
    }
}

impl vstd::std_specs::cmp::PartialEqSpecImpl for AgentId {
    open spec fn obeys_eq_spec() -> bool {
        true
    }

    open spec fn eq_spec(&self, other: &AgentId) -> bool {
        self@ == other@
    }
}

impl AgentId {
    /// Mint a fresh random identifier.
    pub fn new() -> (r: Self)
        ensures
            is_uuid_text(r@),
    {
        AgentId { text: fresh_uuid_text() }
    }

    /// Accept exactly the canonical text form of an identifier.
    pub fn parse(s: &str) -> (r: Option<Self>)
        ensures
            match r {
                Some(id) => id@ == s@ && is_uuid_text(s@),
                None => !is_uuid_text(s@),
            },
    {
        if check_uuid_text(s) {
            Some(AgentId { text: s.to_owned() })
        } else {
            None
        }
    }

    /// The identifier's text form.
    pub fn to_text(&self) -> (r: String)
        ensures
            r@ == self@,
    {
        self.text.clone()
    }
}

/// Unique identifier for a task.
#[derive(Debug, Hash)]
pub struct TaskId {
    text: String,
}

impl View for TaskId {
    type V = Seq<char>;

    closed spec fn view(&self) -> Seq<char> {
        self.text@
    }
}

impl Clone for TaskId {
    fn clone(&self) -> (res: Self)
        ensures
            res == *self,
    {
        TaskId { text: self.text.clone() }
    }
}

impl PartialEq for TaskId {
    fn eq(&self, other: &TaskId) -> bool {
        self.text == other.text
    }
}

impl vstd::std_specs::cmp::PartialEqSpecImpl for TaskId {
    open spec fn obeys_eq_spec() -> bool {
        true
    }

    open spec fn eq_spec(&self, other: &TaskId) -> bool {
        self@ == other@
    }
}

impl TaskId {
    /// Mint a fresh random identifier.
    pub fn new() -> (r: Self)
        ensures
            is_uuid_text(r@),
    {
        TaskId { text: fresh_uuid_text() }
    }

    /// Accept exactly the canonical text form of an identifier.
    pub fn parse(s: &str) -> (r: Option<Self>)
        ensures
            match r {
                Some(id) => id@ == s@ && is_uuid_text(s@),
                None => !is_uuid_text(s@),
            },
    {
        if check_uuid_text(s) {
            Some(TaskId { text: s.to_owned() })
        } else {
            None
        }
    }

    /// The identifier's text form.
    pub fn to_text(&self) -> (r: String)
        ensures
            r@ == self@,
    {
        self.text.clone()
    }
}

/// Unique identifier for a registered tool.
#[derive(Debug, Hash)]
pub struct ToolId {
    text: String,
}

impl View for ToolId {
    type V = Seq<char>;

    closed spec fn view(&self) -> Seq<char> {
        self.text@
    }
}

impl Clone for ToolId {
    fn clone(&self) -> (res: Self)
        ensures
            res == *self,
    {
        ToolId { text: self.text.clone() }
    }
}

impl PartialEq for ToolId {
    fn eq(&self, other: &ToolId) -> bool {
        self.text == other.text
    }
}

impl vstd::std_specs::cmp::PartialEqSpecImpl for ToolId {
    open spec fn obeys_eq_spec() -> bool {
        true
    }

    open spec fn eq_spec(&self, other: &ToolId) -> bool {
        self@ == other@
    }
}

impl ToolId {
    /// Mint a fresh random identifier.
    pub fn new() -> (r: Self)
        ensures
            is_uuid_text(r@),
    {
        ToolId { text: fresh_uuid_text() }
    }

    /// Accept exactly the canonical text form of an identifier.
    pub fn parse(s: &str) -> (r: Option<Self>)
        ensures
            match r {
                Some(id) => id@ == s@ && is_uuid_text(s@),
                None => !is_uuid_text(s@),
            },
    {
        if check_uuid_text(s) {
            Some(ToolId { text: s.to_owned() })
        } else {
            None
        }
    }

    /// The identifier's text form.
    pub fn to_text(&self) -> (r: String)
        ensures
            r@ == self@,
    {
        self.text.clone()
    }
}

/// Unique identifier for a workflow definition.
#[derive(Debug, Hash)]
pub struct WorkflowId {
    text: String,
}

impl View for WorkflowId {
    type V = Seq<char>;

    closed spec fn view(&self) -> Seq<char> {
        self.text@
    }
}

impl Clone for WorkflowId {
    fn clone(&self) -> (res: Self)
        ensures
            res == *self,
    {
        WorkflowId { text: self.text.clone() }
    }
}

impl PartialEq for WorkflowId {
    fn eq(&self, other: &WorkflowId) -> bool {
        self.text == other.text
    }
}

impl vstd::std_specs::cmp::PartialEqSpecImpl for WorkflowId {
    open spec fn obeys_eq_spec() -> bool {
        true
    }

    open spec fn eq_spec(&self, other: &WorkflowId) -> bool {
        self@ == other@
    }
}

impl WorkflowId {
    /// Mint a fresh random identifier.
    pub fn new() -> (r: Self)
        ensures
            is_uuid_text(r@),
    {
        WorkflowId { text: fresh_uuid_text() }
    }

    /// Accept exactly the canonical text form of an identifier.
    pub fn parse(s: &str) -> (r: Option<Self>)
        ensures
            match r {
                Some(id) => id@ == s@ && is_uuid_text(s@),
                None => !is_uuid_text(s@),
            },
    {
        if check_uuid_text(s) {
            Some(WorkflowId { text: s.to_owned() })
        } else {
            None
        }
    }

    /// The identifier's text form.
    pub fn to_text(&self) -> (r: String)
        ensures
            r@ == self@,
    {
        self.text.clone()
    }
}

/// Unique identifier for a ledger block.
#[derive(Debug, Hash)]
pub struct LedgerBlockId {
    text: String,
}

impl View for LedgerBlockId {
    type V = Seq<char>;

    closed spec fn view(&self) -> Seq<char> {
        self.text@
    }
}

impl Clone for LedgerBlockId {
    fn clone(&self) -> (res: Self)
        ensures
            res == *self,
    {
        LedgerBlockId { text: self.text.clone() }
    }
}

impl PartialEq for LedgerBlockId {
    fn eq(&self, other: &LedgerBlockId) -> bool {
        self.text == other.text
    }
}

impl vstd::std_specs::cmp::PartialEqSpecImpl for LedgerBlockId {
    open spec fn obeys_eq_spec() -> bool {
        true
    }

    open spec fn eq_spec(&self, other: &LedgerBlockId) -> bool {
        self@ == other@
    }
}

impl LedgerBlockId {
    /// Mint a fresh random identifier.
    pub fn new() -> (r: Self)
        ensures
            is_uuid_text(r@),
    {
        LedgerBlockId { text: fresh_uuid_text() }
    }

    /// Accept exactly the canonical text form of an identifier.
    pub fn parse(s: &str) -> (r: Option<Self>)
        ensures
            match r {
                Some(id) => id@ == s@ && is_uuid_text(s@),
                None => !is_uuid_text(s@),
            },
    {
        if check_uuid_text(s) {
            Some(LedgerBlockId { text: s.to_owned() })
        } else {
            None
        }
    }

    /// The identifier's text form.
    pub fn to_text(&self) -> (r: String)
        ensures
            r@ == self@,
    {
        self.text.clone()
    }
}

/// Unique identifier for a conversation session.
#[derive(Debug, Hash)]
pub struct SessionId {
    text: String,
}

impl View for SessionId {
    type V = Seq<char>;

    closed spec fn view(&self) -> Seq<char> {
        self.text@
    }
}

impl Clone for SessionId {
    fn clone(&self) -> (res: Self)
        ensures
            res == *self,
    {
        SessionId { text: self.text.clone() }
    }
}

impl PartialEq for SessionId {
    fn eq(&self, other: &SessionId) -> bool {
        self.text == other.text
    }
}

impl vstd::std_specs::cmp::PartialEqSpecImpl for SessionId {
    open spec fn obeys_eq_spec() -> bool {
        true
    }

    open spec fn eq_spec(&self, other: &SessionId) -> bool {
        self@ == other@
    }
}

impl SessionId {
    /// Mint a fresh random identifier.
    pub fn new() -> (r: Self)
        ensures
            is_uuid_text(r@),
    {
        SessionId { text: fresh_uuid_text() }
    }

    /// Accept exactly the canonical text form of an identifier.
    pub fn parse(s: &str) -> (r: Option<Self>)
        ensures
            match r {
                Some(id) => id@ == s@ && is_uuid_text(s@),
                None => !is_uuid_text(s@),
            },
    {
        if check_uuid_text(s) {
            Some(SessionId { text: s.to_owned() })
        } else {
            None
        }
    }

    /// The identifier's text form.
    pub fn to_text(&self) -> (r: String)
        ensures
            r@ == self@,
    {
        self.text.clone()
    }
}

/// Unique identifier for a worker.
#[derive(Debug, Hash)]
pub struct WorkerId {
    text: String,
}

impl View for WorkerId {
    type V = Seq<char>;

    closed spec fn view(&self) -> Seq<char> {
        self.text@
    }
}

impl Clone for WorkerId {
    fn clone(&self) -> (res: Self)
        ensures
            res == *self,
    {
        WorkerId { text: self.text.clone() }
    }
}

impl PartialEq for WorkerId {
    fn eq(&self, other: &WorkerId) -> bool {
        self.text == other.text
    }
}

impl vstd::std_specs::cmp::PartialEqSpecImpl for WorkerId {
    open spec fn obeys_eq_spec() -> bool {
        true
    }

    open spec fn eq_spec(&self, other: &WorkerId) -> bool {
        self@ == other@
    }
}

impl WorkerId {
    /// Mint a fresh random identifier.
    pub fn new() -> (r: Self)
        ensures
            is_uuid_text(r@),
    {
        WorkerId { text: fresh_uuid_text() }
    }

    /// Accept exactly the canonical text form of an identifier.
    pub fn parse(s: &str) -> (r: Option<Self>)
        ensures
            match r {
                Some(id) => id@ == s@ && is_uuid_text(s@),
                None => !is_uuid_text(s@),
            },
    {
        if check_uuid_text(s) {
            Some(WorkerId { text: s.to_owned() })
        } else {
            None
        }
    }

    /// The identifier's text form.
    pub fn to_text(&self) -> (r: String)
        ensures
            r@ == self@,
    {
        self.text.clone()
    }
}

/// Unique identifier for an API request.
#[derive(Debug, Hash)]
pub struct RequestId {
    text: String,
}

impl View for RequestId {
    type V = Seq<char>;

    closed spec fn view(&self) -> Seq<char> {
        self.text@
    }
}

impl Clone for RequestId {
    fn clone(&self) -> (res: Self)
        ensures
            res == *self,
    {
        RequestId { text: self.text.clone() }
    }
}

impl PartialEq for RequestId {
    fn eq(&self, other: &RequestId) -> bool {
        self.text == other.text
    }
}

impl vstd::std_specs::cmp::PartialEqSpecImpl for RequestId {
    open spec fn obeys_eq_spec() -> bool {
        true
    }

    open spec fn eq_spec(&self, other: &RequestId) -> bool {
        self@ == other@
    }
}

impl RequestId {
    /// Mint a fresh random identifier.
    pub fn new() -> (r: Self)
        ensures
            is_uuid_text(r@),
    {
        RequestId { text: fresh_uuid_text() }
    }

    /// Accept exactly the canonical text form of an identifier.
    pub fn parse(s: &str) -> (r: Option<Self>)
        ensures
            match r {
                Some(id) => id@ == s@ && is_uuid_text(s@),
                None => !is_uuid_text(s@),
            },
    {
        if check_uuid_text(s) {
            Some(RequestId { text: s.to_owned() })
        } else {
            None
        }
    }

    /// The identifier's text form.
    pub fn to_text(&self) -> (r: String)
        ensures
            r@ == self@,
    {
        self.text.clone()
    }
}

} // verus!
