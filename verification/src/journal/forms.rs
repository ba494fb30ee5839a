//! What the journal pages submit: the fields of each form, and the permissions that the
//! check boxes of a membership form grant.

use crate::permissions::Permissions;
use vstd::prelude::*;

verus! {

/// Creates a journal with this name.
#[derive(Debug)]
pub struct CreateJournalForm {
    pub journal_name: String,
}

/// Creates an account with this name.
#[derive(Debug)]
pub struct CreateAccountForm {
    pub account_name: String,
}

/// Invites the user with this email; each box that is present grants its permission.
#[derive(Debug)]
pub struct InviteUserForm {
    pub email: String,
    pub read: Option<String>,
    pub add_account: Option<String>,
    pub append_transaction: Option<String>,
    pub invite: Option<String>,
}

/// Sets a member's permissions; each box that is present grants its permission.
#[derive(Debug)]
pub struct UpdatePermissionsForm {
    pub read: Option<String>,
    pub add_account: Option<String>,
    pub append_transaction: Option<String>,
    pub invite: Option<String>,
}

/// Asks where to upload a file of this name and size (in bytes).
#[derive(Debug)]
pub struct UploadFileForm {
    pub file_name: String,
    pub file_size: i64,
}

/// Where to upload a file, and the key under which it will be stored.
#[derive(Debug)]
pub struct UploadLink {
    pub upload_url: String,
    pub file_key: String,
}

/// The key of a file uploaded to local storage.
#[derive(Debug)]
pub struct LocalUploadQuery {
    pub file_key: String,
}

/// Records the upload of the file stored under this key.
#[derive(Debug)]
pub struct RecordFileUploadForm {
    pub file_key: String,
}

/// A transaction as submitted: for each row, an account, an amount and a side.
#[derive(Debug)]
pub struct TransactForm {
    pub account: Vec<String>,
    pub amount: Vec<String>,
    pub entry_type: Vec<i32>,
}

/// The bits granted by the boxes: read 1, add account 2, append transaction 32, invite 64.
pub open spec fn flag_bits(read: bool, add_account: bool, append_transaction: bool, invite: bool) -> i32 {
    ((if read { 1i32 } else { 0i32 }) + (if add_account { 2i32 } else { 0i32 }) + (
    if append_transaction { 32i32 } else { 0i32 }) + (if invite { 64i32 } else { 0i32 })) as i32
}

proof fn lemma_flag_bits(read: bool, add_account: bool, append_transaction: bool, invite: bool)
    by (bit_vector)
    ensures
        ((((0i32 | (if read { 1i32 } else { 0i32 })) | (if add_account { 2i32 } else { 0i32 })) | (
        if append_transaction { 32i32 } else { 0i32 })) | (if invite { 64i32 } else { 0i32 }))
            == ((if read { 1i32 } else { 0i32 }) + (if add_account { 2i32 } else { 0i32 }) + (
        if append_transaction { 32i32 } else { 0i32 }) + (if invite { 64i32 } else { 0i32 })),
{
}

/// Each box grants exactly its own permission: read is bit 1, add account bit 2, append
/// transaction bit 32 and invite bit 64, and no other bit is set.
pub proof fn lemma_each_box_grants_its_own_permission(
    read: bool,
    add_account: bool,
    append_transaction: bool,
    invite: bool,
)
    by (bit_vector)
    ensures
        (flag_bits(read, add_account, append_transaction, invite) & 1i32 == 1i32) == read,
        (flag_bits(read, add_account, append_transaction, invite) & 2i32 == 2i32) == add_account,
        (flag_bits(read, add_account, append_transaction, invite) & 32i32 == 32i32)
            == append_transaction,
        (flag_bits(read, add_account, append_transaction, invite) & 64i32 == 64i32) == invite,
        flag_bits(read, add_account, append_transaction, invite) & !0x63i32 == 0i32,
{
}

/// The permissions that the ticked boxes grant: read, add account, append transaction
/// and invite.
pub fn permissions_from_flags(read: bool, add_account: bool, append_transaction: bool, invite: bool) -> (p: Permissions)
    ensures
        p.bits == flag_bits(read, add_account, append_transaction, invite),
        (p.bits & 1i32 == 1i32) == read,
        (p.bits & 2i32 == 2i32) == add_account,
        (p.bits & 32i32 == 32i32) == append_transaction,
        (p.bits & 64i32 == 64i32) == invite,
        p.bits & !0x63i32 == 0i32,
{
    let mut p = Permissions::empty();
    if read {
        p.insert(Permissions::read());
    } else {
        assert(0i32 | 0i32 == 0i32) by (bit_vector);
    }
    if add_account {
        p.insert(Permissions::add_account());
    } else {
        let ghost x = p.bits;
        assert(x | 0i32 == x) by (bit_vector);
    }
    if append_transaction {
        p.insert(Permissions::append_transaction());
    } else {
        let ghost x = p.bits;
        assert(x | 0i32 == x) by (bit_vector);
    }
    if invite {
        p.insert(Permissions::invite());
    } else {
        let ghost x = p.bits;
        assert(x | 0i32 == x) by (bit_vector);
    }
    proof {
        lemma_flag_bits(read, add_account, append_transaction, invite);
        lemma_each_box_grants_its_own_permission(read, add_account, append_transaction, invite);
    }
    p
}

impl InviteUserForm {
    /// The permissions that the invitation grants.
    pub fn permissions(&self) -> (p: Permissions)
        ensures
            p.bits == flag_bits(
                self.read is Some,
                self.add_account is Some,
                self.append_transaction is Some,
                self.invite is Some,
            ),
    {
        permissions_from_flags(
            self.read.is_some(),
            self.add_account.is_some(),
            self.append_transaction.is_some(),
            self.invite.is_some(),
        )
    }
}

impl UpdatePermissionsForm {
    /// The permissions that the member is given.
    pub fn permissions(&self) -> (p: Permissions)
        ensures
            p.bits == flag_bits(
                self.read is Some,
                self.add_account is Some,
                self.append_transaction is Some,
                self.invite is Some,
            ),
    {
        permissions_from_flags(
            self.read.is_some(),
            self.add_account.is_some(),
            self.append_transaction.is_some(),
            self.invite.is_some(),
        )
    }
}

} // verus!
