//! Typed identifiers of the entities of the service, each a wrapper around an [`Ident`].

use crate::ident::{Ident, IdentError};
use crate::idmap::IdKey;
use vstd::prelude::*;

verus! {

/// The identifier of a journal.
#[derive(Clone, Copy, PartialEq, Eq, Structural, Debug, Hash)]
pub struct JournalId(pub Ident);

impl JournalId {
    /// A fresh random identifier.
    pub fn new() -> (id: Self)
        ensures
            id.0.wf(),
            id.0 is Cuid16,
            crate::ident::spec_is_cuid2(id.0@),
            id.0@.len() <= 16,
    {
        JournalId(Ident::new16())
    }

    /// The identifier of a value that was never set.
    pub fn nil() -> (id: Self)
        ensures
            id.0 == Ident::spec_nil(),
    {
        JournalId(Ident::nil())
    }

    /// Parses the identifier from its text.
    pub fn from_str(s: &str) -> (r: Result<Self, IdentError>)
        ensures
            r is Ok <==> crate::ident::spec_is_ident(s@),
            r matches Ok(id) ==> id.0.wf() && id.0@ == s@,
            r matches Ok(id) ==> (s@.len() == 5 <==> id.0 is Custom) && (s@.len() == 10
                <==> id.0 is Cuid10) && (s@.len() == 16 <==> id.0 is Cuid16),
            r matches Err(e) ==> (e matches IdentError::InvalidId(t) && t@ == s@),
    {
        match Ident::from_str(s) {
            Ok(i) => Ok(JournalId(i)),
            Err(e) => Err(e),
        }
    }

    /// The underlying identifier.
    pub fn ident(&self) -> (i: Ident)
        ensures
            i == self.0,
    {
        self.0
    }
}

impl Default for JournalId {
    fn default() -> (id: Self)
        ensures
            id.0 == Ident::spec_nil(),
    {
        JournalId::nil()
    }
}

impl IdKey for JournalId {
    fn same(&self, other: &Self) -> (r: bool) {
        *self == *other
    }
}

/// The identifier of an account.
#[derive(Clone, Copy, PartialEq, Eq, Structural, Debug, Hash)]
pub struct AccountId(pub Ident);

impl AccountId {
    /// A fresh random identifier.
    pub fn new() -> (id: Self)
        ensures
            id.0.wf(),
            id.0 is Cuid16,
            crate::ident::spec_is_cuid2(id.0@),
            id.0@.len() <= 16,
    {
        AccountId(Ident::new16())
    }

    /// The identifier of a value that was never set.
    pub fn nil() -> (id: Self)
        ensures
            id.0 == Ident::spec_nil(),
    {
        AccountId(Ident::nil())
    }

    /// Parses the identifier from its text.
    pub fn from_str(s: &str) -> (r: Result<Self, IdentError>)
        ensures
            r is Ok <==> crate::ident::spec_is_ident(s@),
            r matches Ok(id) ==> id.0.wf() && id.0@ == s@,
            r matches Ok(id) ==> (s@.len() == 5 <==> id.0 is Custom) && (s@.len() == 10
                <==> id.0 is Cuid10) && (s@.len() == 16 <==> id.0 is Cuid16),
            r matches Err(e) ==> (e matches IdentError::InvalidId(t) && t@ == s@),
    {
        match Ident::from_str(s) {
            Ok(i) => Ok(AccountId(i)),
            Err(e) => Err(e),
        }
    }

    /// The underlying identifier.
    pub fn ident(&self) -> (i: Ident)
        ensures
            i == self.0,
    {
        self.0
    }
}

impl Default for AccountId {
    fn default() -> (id: Self)
        ensures
            id.0 == Ident::spec_nil(),
    {
        AccountId::nil()
    }
}

impl IdKey for AccountId {
    fn same(&self, other: &Self) -> (r: bool) {
        *self == *other
    }
}

/// The identifier of an activity.
#[derive(Clone, Copy, PartialEq, Eq, Structural, Debug, Hash)]
pub struct ActivityId(pub Ident);

impl ActivityId {
    /// A fresh random identifier.
    pub fn new() -> (id: Self)
        ensures
            id.0.wf(),
            id.0 is Cuid16,
            crate::ident::spec_is_cuid2(id.0@),
            id.0@.len() <= 16,
    {
        ActivityId(Ident::new16())
    }

    /// The identifier of a value that was never set.
    pub fn nil() -> (id: Self)
        ensures
            id.0 == Ident::spec_nil(),
    {
        ActivityId(Ident::nil())
    }

    /// Parses the identifier from its text.
    pub fn from_str(s: &str) -> (r: Result<Self, IdentError>)
        ensures
            r is Ok <==> crate::ident::spec_is_ident(s@),
            r matches Ok(id) ==> id.0.wf() && id.0@ == s@,
            r matches Ok(id) ==> (s@.len() == 5 <==> id.0 is Custom) && (s@.len() == 10
                <==> id.0 is Cuid10) && (s@.len() == 16 <==> id.0 is Cuid16),
            r matches Err(e) ==> (e matches IdentError::InvalidId(t) && t@ == s@),
    {
        match Ident::from_str(s) {
            Ok(i) => Ok(ActivityId(i)),
            Err(e) => Err(e),
        }
    }

    /// The underlying identifier.
    pub fn ident(&self) -> (i: Ident)
        ensures
            i == self.0,
    {
        self.0
    }
}

impl Default for ActivityId {
    fn default() -> (id: Self)
        ensures
            id.0 == Ident::spec_nil(),
    {
        ActivityId::nil()
    }
}

impl IdKey for ActivityId {
    fn same(&self, other: &Self) -> (r: bool) {
        *self == *other
    }
}

/// The identifier of a fund.
#[derive(Clone, Copy, PartialEq, Eq, Structural, Debug, Hash)]
pub struct FundId(pub Ident);

impl FundId {
    /// A fresh random identifier.
    pub fn new() -> (id: Self)
        ensures
            id.0.wf(),
            id.0 is Cuid16,
            crate::ident::spec_is_cuid2(id.0@),
            id.0@.len() <= 16,
    {
        FundId(Ident::new16())
    }

    /// The identifier of a value that was never set.
    pub fn nil() -> (id: Self)
        ensures
            id.0 == Ident::spec_nil(),
    {
        FundId(Ident::nil())
    }

    /// Parses the identifier from its text.
    pub fn from_str(s: &str) -> (r: Result<Self, IdentError>)
        ensures
            r is Ok <==> crate::ident::spec_is_ident(s@),
            r matches Ok(id) ==> id.0.wf() && id.0@ == s@,
            r matches Ok(id) ==> (s@.len() == 5 <==> id.0 is Custom) && (s@.len() == 10
                <==> id.0 is Cuid10) && (s@.len() == 16 <==> id.0 is Cuid16),
            r matches Err(e) ==> (e matches IdentError::InvalidId(t) && t@ == s@),
    {
        match Ident::from_str(s) {
            Ok(i) => Ok(FundId(i)),
            Err(e) => Err(e),
        }
    }

    /// The underlying identifier.
    pub fn ident(&self) -> (i: Ident)
        ensures
            i == self.0,
    {
        self.0
    }
}

impl Default for FundId {
    fn default() -> (id: Self)
        ensures
            id.0 == Ident::spec_nil(),
    {
        FundId::nil()
    }
}

impl IdKey for FundId {
    fn same(&self, other: &Self) -> (r: bool) {
        *self == *other
    }
}

/// The identifier of a transaction entry.
#[derive(Clone, Copy, PartialEq, Eq, Structural, Debug, Hash)]
pub struct EntryId(pub Ident);

impl EntryId {
    /// A fresh random identifier.
    pub fn new() -> (id: Self)
        ensures
            id.0.wf(),
            id.0 is Cuid16,
            crate::ident::spec_is_cuid2(id.0@),
            id.0@.len() <= 16,
    {
        EntryId(Ident::new16())
    }

    /// The identifier of a value that was never set.
    pub fn nil() -> (id: Self)
        ensures
            id.0 == Ident::spec_nil(),
    {
        EntryId(Ident::nil())
    }

    /// Parses the identifier from its text.
    pub fn from_str(s: &str) -> (r: Result<Self, IdentError>)
        ensures
            r is Ok <==> crate::ident::spec_is_ident(s@),
            r matches Ok(id) ==> id.0.wf() && id.0@ == s@,
            r matches Ok(id) ==> (s@.len() == 5 <==> id.0 is Custom) && (s@.len() == 10
                <==> id.0 is Cuid10) && (s@.len() == 16 <==> id.0 is Cuid16),
            r matches Err(e) ==> (e matches IdentError::InvalidId(t) && t@ == s@),
    {
        match Ident::from_str(s) {
            Ok(i) => Ok(EntryId(i)),
            Err(e) => Err(e),
        }
    }

    /// The underlying identifier.
    pub fn ident(&self) -> (i: Ident)
        ensures
            i == self.0,
    {
        self.0
    }
}

impl Default for EntryId {
    fn default() -> (id: Self)
        ensures
            id.0 == Ident::spec_nil(),
    {
        EntryId::nil()
    }
}

impl IdKey for EntryId {
    fn same(&self, other: &Self) -> (r: bool) {
        *self == *other
    }
}

/// The identifier of a transaction.
#[derive(Clone, Copy, PartialEq, Eq, Structural, Debug, Hash)]
pub struct TransactionId(pub Ident);

impl TransactionId {
    /// A fresh random identifier.
    pub fn new() -> (id: Self)
        ensures
            id.0.wf(),
            id.0 is Cuid16,
            crate::ident::spec_is_cuid2(id.0@),
            id.0@.len() <= 16,
    {
        TransactionId(Ident::new16())
    }

    /// The identifier of a value that was never set.
    pub fn nil() -> (id: Self)
        ensures
            id.0 == Ident::spec_nil(),
    {
        TransactionId(Ident::nil())
    }

    /// Parses the identifier from its text.
    pub fn from_str(s: &str) -> (r: Result<Self, IdentError>)
        ensures
            r is Ok <==> crate::ident::spec_is_ident(s@),
            r matches Ok(id) ==> id.0.wf() && id.0@ == s@,
            r matches Ok(id) ==> (s@.len() == 5 <==> id.0 is Custom) && (s@.len() == 10
                <==> id.0 is Cuid10) && (s@.len() == 16 <==> id.0 is Cuid16),
            r matches Err(e) ==> (e matches IdentError::InvalidId(t) && t@ == s@),
    {
        match Ident::from_str(s) {
            Ok(i) => Ok(TransactionId(i)),
            Err(e) => Err(e),
        }
    }

    /// The underlying identifier.
    pub fn ident(&self) -> (i: Ident)
        ensures
            i == self.0,
    {
        self.0
    }
}

impl Default for TransactionId {
    fn default() -> (id: Self)
        ensures
            id.0 == Ident::spec_nil(),
    {
        TransactionId::nil()
    }
}

impl IdKey for TransactionId {
    fn same(&self, other: &Self) -> (r: bool) {
        *self == *other
    }
}

/// The identifier of an uploaded file.
#[derive(Clone, Copy, PartialEq, Eq, Structural, Debug, Hash)]
pub struct FileId(pub Ident);

impl FileId {
    /// A fresh random identifier.
    pub fn new() -> (id: Self)
        ensures
            id.0.wf(),
            id.0 is Cuid16,
            crate::ident::spec_is_cuid2(id.0@),
            id.0@.len() <= 16,
    {
        FileId(Ident::new16())
    }

    /// The identifier of a value that was never set.
    pub fn nil() -> (id: Self)
        ensures
            id.0 == Ident::spec_nil(),
    {
        FileId(Ident::nil())
    }

    /// Parses the identifier from its text.
    pub fn from_str(s: &str) -> (r: Result<Self, IdentError>)
        ensures
            r is Ok <==> crate::ident::spec_is_ident(s@),
            r matches Ok(id) ==> id.0.wf() && id.0@ == s@,
            r matches Ok(id) ==> (s@.len() == 5 <==> id.0 is Custom) && (s@.len() == 10
                <==> id.0 is Cuid10) && (s@.len() == 16 <==> id.0 is Cuid16),
            r matches Err(e) ==> (e matches IdentError::InvalidId(t) && t@ == s@),
    {
        match Ident::from_str(s) {
            Ok(i) => Ok(FileId(i)),
            Err(e) => Err(e),
        }
    }

    /// The underlying identifier.
    pub fn ident(&self) -> (i: Ident)
        ensures
            i == self.0,
    {
        self.0
    }
}

impl Default for FileId {
    fn default() -> (id: Self)
        ensures
            id.0 == Ident::spec_nil(),
    {
        FileId::nil()
    }
}

impl IdKey for FileId {
    fn same(&self, other: &Self) -> (r: bool) {
        *self == *other
    }
}

/// The identifier of a user.
#[derive(Clone, Copy, PartialEq, Eq, Structural, Debug, Hash)]
pub struct UserId(pub Ident);

impl UserId {
    /// A fresh random identifier.
    pub fn new() -> (id: Self)
        ensures
            id.0.wf(),
            id.0 is Cuid16,
            crate::ident::spec_is_cuid2(id.0@),
            id.0@.len() <= 16,
    {
        UserId(Ident::new16())
    }

    /// The identifier of a value that was never set.
    pub fn nil() -> (id: Self)
        ensures
            id.0 == Ident::spec_nil(),
    {
        UserId(Ident::nil())
    }

    /// Parses the identifier from its text.
    pub fn from_str(s: &str) -> (r: Result<Self, IdentError>)
        ensures
            r is Ok <==> crate::ident::spec_is_ident(s@),
            r matches Ok(id) ==> id.0.wf() && id.0@ == s@,
            r matches Ok(id) ==> (s@.len() == 5 <==> id.0 is Custom) && (s@.len() == 10
                <==> id.0 is Cuid10) && (s@.len() == 16 <==> id.0 is Cuid16),
            r matches Err(e) ==> (e matches IdentError::InvalidId(t) && t@ == s@),
    {
        match Ident::from_str(s) {
            Ok(i) => Ok(UserId(i)),
            Err(e) => Err(e),
        }
    }

    /// The underlying identifier.
    pub fn ident(&self) -> (i: Ident)
        ensures
            i == self.0,
    {
        self.0
    }
}

impl Default for UserId {
    fn default() -> (id: Self)
        ensures
            id.0 == Ident::spec_nil(),
    {
        UserId::nil()
    }
}

impl IdKey for UserId {
    fn same(&self, other: &Self) -> (r: bool) {
        *self == *other
    }
}

/// The identifier of a grant.
#[derive(Clone, Copy, PartialEq, Eq, Structural, Debug, Hash)]
pub struct GrantId(pub Ident);

impl GrantId {
    /// A fresh random identifier.
    pub fn new() -> (id: Self)
        ensures
            id.0.wf(),
            id.0 is Cuid16,
            crate::ident::spec_is_cuid2(id.0@),
            id.0@.len() <= 16,
    {
        GrantId(Ident::new16())
    }

    /// The identifier of a value that was never set.
    pub fn nil() -> (id: Self)
        ensures
            id.0 == Ident::spec_nil(),
    {
        GrantId(Ident::nil())
    }

    /// Parses the identifier from its text.
    pub fn from_str(s: &str) -> (r: Result<Self, IdentError>)
        ensures
            r is Ok <==> crate::ident::spec_is_ident(s@),
            r matches Ok(id) ==> id.0.wf() && id.0@ == s@,
            r matches Ok(id) ==> (s@.len() == 5 <==> id.0 is Custom) && (s@.len() == 10
                <==> id.0 is Cuid10) && (s@.len() == 16 <==> id.0 is Cuid16),
            r matches Err(e) ==> (e matches IdentError::InvalidId(t) && t@ == s@),
    {
        match Ident::from_str(s) {
            Ok(i) => Ok(GrantId(i)),
            Err(e) => Err(e),
        }
    }

    /// The underlying identifier.
    pub fn ident(&self) -> (i: Ident)
        ensures
            i == self.0,
    {
        self.0
    }
}

impl Default for GrantId {
    fn default() -> (id: Self)
        ensures
            id.0 == Ident::spec_nil(),
    {
        GrantId::nil()
    }
}

impl IdKey for GrantId {
    fn same(&self, other: &Self) -> (r: bool) {
        *self == *other
    }
}

/// The identifier of a role.
#[derive(Clone, Copy, PartialEq, Eq, Structural, Debug, Hash)]
pub struct RoleId(pub Ident);

impl RoleId {
    /// A fresh random identifier.
    pub fn new() -> (id: Self)
        ensures
            id.0.wf(),
            id.0 is Cuid16,
            crate::ident::spec_is_cuid2(id.0@),
            id.0@.len() <= 16,
    {
        RoleId(Ident::new16())
    }

    /// The identifier of a value that was never set.
    pub fn nil() -> (id: Self)
        ensures
            id.0 == Ident::spec_nil(),
    {
        RoleId(Ident::nil())
    }

    /// Parses the identifier from its text.
    pub fn from_str(s: &str) -> (r: Result<Self, IdentError>)
        ensures
            r is Ok <==> crate::ident::spec_is_ident(s@),
            r matches Ok(id) ==> id.0.wf() && id.0@ == s@,
            r matches Ok(id) ==> (s@.len() == 5 <==> id.0 is Custom) && (s@.len() == 10
                <==> id.0 is Cuid10) && (s@.len() == 16 <==> id.0 is Cuid16),
            r matches Err(e) ==> (e matches IdentError::InvalidId(t) && t@ == s@),
    {
        match Ident::from_str(s) {
            Ok(i) => Ok(RoleId(i)),
            Err(e) => Err(e),
        }
    }

    /// The underlying identifier.
    pub fn ident(&self) -> (i: Ident)
        ensures
            i == self.0,
    {
        self.0
    }
}

impl Default for RoleId {
    fn default() -> (id: Self)
        ensures
            id.0 == Ident::spec_nil(),
    {
        RoleId::nil()
    }
}

impl IdKey for RoleId {
    fn same(&self, other: &Self) -> (r: bool) {
        *self == *other
    }
}

} // verus!
