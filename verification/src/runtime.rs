//! The accounts an instruction sees, and the instructions a client builds.
//!
//! An [`InstructionContext`] holds, for each account passed to the current
//! instruction, its address, owner, signer and writable flags and its data, plus
//! the program's return data. Processors read and write accounts through it.
use vstd::prelude::*;
use crate::errors::InstructionError;
use crate::pubkey::Pubkey;

verus! {

/// One account passed to an instruction.
#[derive(Debug)]
pub struct AccountInfo {
    pub key: Pubkey,
    pub owner: Pubkey,
    pub is_signer: bool,
    pub is_writable: bool,
    pub lamports: u64,
    pub data: Vec<u8>,
}

/// Mathematical model of [`AccountInfo`].
#[verifier::ext_equal]
pub struct AccountModel {
    pub key: Pubkey,
    pub owner: Pubkey,
    pub is_signer: bool,
    pub is_writable: bool,
    pub lamports: u64,
    pub data: Seq<u8>,
}

impl View for AccountInfo {
    type V = AccountModel;

    open spec fn view(&self) -> AccountModel {
        AccountModel {
            key: self.key,
            owner: self.owner,
            is_signer: self.is_signer,
            is_writable: self.is_writable,
            lamports: self.lamports,
            data: self.data@,
        }
    }
}

/// The accounts of the instruction being processed, and the return data it set.
#[derive(Debug)]
pub struct InstructionContext {
    pub program_id: Pubkey,
    pub accounts: Vec<AccountInfo>,
    pub return_data: Option<(Pubkey, Vec<u8>)>,
}

/// Mathematical model of [`InstructionContext`].
#[verifier::ext_equal]
pub struct ContextModel {
    pub program_id: Pubkey,
    pub accounts: Seq<AccountModel>,
    pub return_data: Option<(Pubkey, Seq<u8>)>,
}

impl View for InstructionContext {
    type V = ContextModel;

    open spec fn view(&self) -> ContextModel {
        ContextModel {
            program_id: self.program_id,
            accounts: self.accounts@.map_values(|a: AccountInfo| a@),
            return_data: match self.return_data {
                Some((k, d)) => Some((k, d@)),
                None => None,
            },
        }
    }
}

impl ContextModel {
    /// The context after account `i`'s data became `data`.
    pub open spec fn with_data(self, i: int, data: Seq<u8>) -> ContextModel {
        ContextModel { accounts: self.accounts.update(i, AccountModel { data, ..self.accounts[i] }), ..self }
    }

    /// The context after account `i`'s balance became `lamports`.
    pub open spec fn with_lamports(self, i: int, lamports: u64) -> ContextModel {
        ContextModel { accounts: self.accounts.update(i, AccountModel { lamports, ..self.accounts[i] }), ..self }
    }

    pub open spec fn lamports(self, i: int) -> u64 {
        self.accounts[i].lamports
    }

    /// The context after the program set its return data.
    pub open spec fn with_return(self, data: Seq<u8>) -> ContextModel {
        ContextModel { return_data: Some((self.program_id, data)), ..self }
    }

    pub open spec fn data(self, i: int) -> Seq<u8> {
        self.accounts[i].data
    }

    pub open spec fn key(self, i: int) -> Pubkey {
        self.accounts[i].key
    }

    pub open spec fn is_signer(self, i: int) -> bool {
        self.accounts[i].is_signer
    }

    pub open spec fn owner(self, i: int) -> Pubkey {
        self.accounts[i].owner
    }

    pub open spec fn is_writable(self, i: int) -> bool {
        self.accounts[i].is_writable
    }

    /// Accounts `i` and `j` are two different accounts: the runtime refuses a
    /// second mutable borrow of one account with `AccountBorrowFailed`.
    pub open spec fn distinct(self, i: int, j: int) -> bool {
        self.key(i) != self.key(j)
    }
}

/// `bytes` followed by zeros up to `len`.
pub open spec fn padded(bytes: Seq<u8>, len: nat) -> Seq<u8> {
    bytes + Seq::new((len - bytes.len()) as nat, |i: int| 0u8)
}

/// Overwriting account `i` with `bytes`: the whole data area is zeroed and
/// `bytes` placed at its front; an error, with nothing changed, when the data
/// area is shorter than `bytes`.
pub open spec fn spec_write(c: ContextModel, i: int, bytes: Seq<u8>) -> (Result<(), InstructionError>, ContextModel) {
    if bytes.len() > c.data(i).len() {
        (Err(InstructionError::AccountDataTooSmall), c)
    } else {
        (Ok(()), c.with_data(i, padded(bytes, c.data(i).len())))
    }
}

/// What a write leaves behind: it succeeds exactly when the bytes fit in the
/// account's data, and then the account holds the bytes followed by zeros up
/// to its former length, while every other account is as it was.
pub proof fn law_write_then_read(c: ContextModel, i: int, bytes: Seq<u8>)
    requires
        0 <= i < c.accounts.len(),
    ensures
        spec_write(c, i, bytes).0 is Ok <==> bytes.len() <= c.data(i).len(),
        spec_write(c, i, bytes).0 is Ok ==> ({
            let c2 = spec_write(c, i, bytes).1;
            &&& c2.data(i) == bytes + Seq::new((c.data(i).len() - bytes.len()) as nat, |k: int| 0u8)
            &&& c2.data(i).len() == c.data(i).len()
            &&& c2.key(i) == c.key(i)
            &&& c2.owner(i) == c.owner(i)
            &&& c2.lamports(i) == c.lamports(i)
            &&& c2.accounts.len() == c.accounts.len()
            &&& c2.program_id == c.program_id
            &&& c2.return_data == c.return_data
            &&& forall|j: int| 0 <= j < c.accounts.len() && j != i ==> #[trigger] c2.accounts[j] == c.accounts[j]
        }),
        spec_write(c, i, bytes).0 is Err ==> spec_write(c, i, bytes).1 == c,
{
}

pub open spec fn spec_sub_lamports(c: ContextModel, i: int, amount: u64) -> (Result<(), InstructionError>, ContextModel) {
    if c.lamports(i) < amount {
        (Err(InstructionError::InsufficientFunds), c)
    } else {
        (Ok(()), c.with_lamports(i, (c.lamports(i) - amount) as u64))
    }
}

pub open spec fn spec_add_lamports(c: ContextModel, i: int, amount: u64) -> (Result<(), InstructionError>, ContextModel) {
    if c.lamports(i) + amount > u64::MAX {
        (Err(InstructionError::ArithmeticOverflow), c)
    } else {
        (Ok(()), c.with_lamports(i, (c.lamports(i) + amount) as u64))
    }
}

/// The key of account `i`, which must have signed.
pub open spec fn spec_signer_key(c: ContextModel, i: int) -> Result<Pubkey, InstructionError> {
    if c.accounts.len() <= i {
        Err(InstructionError::NotEnoughAccountKeys)
    } else if !c.is_signer(i) {
        Err(InstructionError::MissingRequiredSignature)
    } else {
        Ok(c.key(i))
    }
}

/// Account `i` is the `expected` account and is owned by the running program.
pub open spec fn spec_verify_owned(c: ContextModel, i: int, expected: Pubkey) -> Result<(), InstructionError> {
    if c.accounts.len() <= i {
        Err(InstructionError::NotEnoughAccountKeys)
    } else if c.key(i) != expected {
        Err(InstructionError::InvalidArgument)
    } else if c.owner(i) != c.program_id {
        Err(InstructionError::InvalidAccountOwner)
    } else {
        Ok(())
    }
}

/// Moving `amount` lamports out of account `src`, which the running program
/// owns, into account `dst`.
pub open spec fn spec_transfer_owned(c: ContextModel, src: int, dst: int, amount: u64) -> (Result<(), InstructionError>, ContextModel) {
    if c.accounts.len() <= src {
        (Err(InstructionError::NotEnoughAccountKeys), c)
    } else if c.owner(src) != c.program_id {
        (Err(InstructionError::InvalidAccountOwner), c)
    } else {
        let (r1, c1) = spec_sub_lamports(c, src, amount);
        if r1 is Err {
            (r1, c1)
        } else if c1.accounts.len() <= dst {
            (Err(InstructionError::NotEnoughAccountKeys), c1)
        } else {
            spec_add_lamports(c1, dst, amount)
        }
    }
}

/// `s` without its trailing zero bytes.
pub open spec fn trimmed(s: Seq<u8>) -> Seq<u8>
    decreases s.len(),
{
    if s.len() == 0 {
        s
    } else if s.last() == 0 {
        trimmed(s.drop_last())
    } else {
        s
    }
}

/// The bytes end in a non-zero byte.
pub open spec fn ends_nonzero(b: Seq<u8>) -> bool {
    b.len() > 0 && b.last() != 0
}

/// Bytes that end in a non-zero byte come back unchanged from zero padding
/// once the trailing zeros are dropped.
pub proof fn lemma_trimmed_padded(b: Seq<u8>, n: nat)
    requires
        ends_nonzero(b),
    ensures
        trimmed(b + Seq::new(n, |k: int| 0u8)) == b,
    decreases n,
{
    let s = b + Seq::new(n, |k: int| 0u8);
    if n == 0 {
        assert(s =~= b);
    } else {
        assert(s.drop_last() =~= b + Seq::new((n - 1) as nat, |k: int| 0u8));
        lemma_trimmed_padded(b, (n - 1) as nat);
    }
}

/// The length of `d` without its trailing zero bytes.
pub fn trimmed_len(d: &[u8]) -> (r: usize)
    ensures
        r <= d@.len(),
        d@.take(r as int) == trimmed(d@),
{
    let mut end: usize = d.len();
    assert(d@.take(end as int) =~= d@);
    while end > 0 && d[end - 1] == 0
        invariant
            end <= d@.len(),
            trimmed(d@.take(end as int)) == trimmed(d@),
        decreases end,
    {
        assert(d@.take(end as int).drop_last() =~= d@.take(end - 1));
        end = end - 1;
    }
    end
}

/// The first `end` bytes of `d`.
pub fn slice_prefix(d: &[u8], end: usize) -> (r: &[u8])
    requires
        end <= d@.len(),
    ensures
        r@ == d@.take(end as int),
{
    let r = vstd::slice::slice_subrange(d, 0, end);
    assert(r@ =~= d@.take(end as int));
    r
}

/// The first error of two steps, or the second step's outcome.
pub open spec fn and_then(
    first: (Result<(), InstructionError>, ContextModel),
    second: spec_fn(ContextModel) -> (Result<(), InstructionError>, ContextModel),
) -> (Result<(), InstructionError>, ContextModel) {
    if first.0 is Err {
        first
    } else {
        second(first.1)
    }
}

/// Every byte is zero (an empty slice included).
pub open spec fn all_zero(s: Seq<u8>) -> bool {
    forall|i: int| 0 <= i < s.len() ==> s[i] == 0
}

pub fn is_all_zero(d: &[u8]) -> (r: bool)
    ensures
        r == all_zero(d@),
{
    let mut i: usize = 0;
    while i < d.len()
        invariant
            i <= d@.len(),
            forall|j: int| 0 <= j < i ==> d@[j] == 0,
        decreases d@.len() - i,
    {
        if d[i] != 0 {
            return false;
        }
        i = i + 1;
    }
    true
}

impl InstructionContext {
    /// The runtime's check that at least `n` accounts were passed.
    pub fn check_number_of_instruction_accounts(&self, n: usize) -> (r: Result<(), InstructionError>)
        ensures
            r == (if self@.accounts.len() >= n {
                Ok(())
            } else {
                Err(InstructionError::NotEnoughAccountKeys)
            }),
    {
        if self.accounts.len() >= n {
            Ok(())
        } else {
            Err(InstructionError::NotEnoughAccountKeys)
        }
    }

    pub fn key(&self, i: usize) -> (r: Pubkey)
        requires
            i < self@.accounts.len(),
        ensures
            r == self@.key(i as int),
    {
        self.accounts[i].key
    }

    pub fn owner(&self, i: usize) -> (r: Pubkey)
        requires
            i < self@.accounts.len(),
        ensures
            r == self@.owner(i as int),
    {
        self.accounts[i].owner
    }

    pub fn is_signer(&self, i: usize) -> (r: bool)
        requires
            i < self@.accounts.len(),
        ensures
            r == self@.is_signer(i as int),
    {
        self.accounts[i].is_signer
    }

    pub fn is_writable(&self, i: usize) -> (r: bool)
        requires
            i < self@.accounts.len(),
        ensures
            r == self@.is_writable(i as int),
    {
        self.accounts[i].is_writable
    }

    /// Fails with `AccountBorrowFailed` when accounts `i` and `j` are the same
    /// account, as borrowing it mutably twice does.
    pub fn borrow_both(&self, i: usize, j: usize) -> (r: Result<(), InstructionError>)
        requires
            i < self@.accounts.len(),
            j < self@.accounts.len(),
        ensures
            r == (if self@.distinct(i as int, j as int) { Ok(()) } else { Err(InstructionError::AccountBorrowFailed) }),
    {
        if self.accounts[i].key == self.accounts[j].key {
            Err(InstructionError::AccountBorrowFailed)
        } else {
            Ok(())
        }
    }

    pub fn data(&self, i: usize) -> (r: &[u8])
        requires
            i < self@.accounts.len(),
        ensures
            r@ == self@.data(i as int),
    {
        self.accounts[i].data.as_slice()
    }

    /// Replaces the data of account `i`.
    pub fn set_data(&mut self, i: usize, data: Vec<u8>)
        requires
            i < old(self)@.accounts.len(),
        ensures
            final(self)@ == old(self)@.with_data(i as int, data@),
    {
        let ghost before = self@;
        let acc = self.accounts.remove(i);
        let updated = AccountInfo {
            key: acc.key,
            owner: acc.owner,
            is_signer: acc.is_signer,
            is_writable: acc.is_writable,
            lamports: acc.lamports,
            data,
        };
        self.accounts.insert(i, updated);
        assert(self@.accounts =~= before.with_data(i as int, data@).accounts);
        assert(self@ =~= before.with_data(i as int, data@));
    }

    /// Zeroes account `i`'s data area and places `bytes` at its front.
    pub fn write_account(&mut self, i: usize, bytes: &Vec<u8>) -> (r: Result<(), InstructionError>)
        requires
            i < old(self)@.accounts.len(),
        ensures
            (r, final(self)@) == spec_write(old(self)@, i as int, bytes@),
    {
        let len = self.accounts[i].data.len();
        if bytes.len() > len {
            return Err(InstructionError::AccountDataTooSmall);
        }
        let mut out: Vec<u8> = Vec::new();
        let mut k: usize = 0;
        while k < len
            invariant
                k <= len,
                bytes@.len() <= len,
                out@ == padded(bytes@, len as nat).take(k as int),
            decreases len - k,
        {
            if k < bytes.len() {
                out.push(bytes[k]);
            } else {
                out.push(0u8);
            }
            assert(padded(bytes@, len as nat).take(k + 1) =~= padded(bytes@, len as nat).take(k as int).push(padded(bytes@, len as nat)[k as int]));
            k = k + 1;
        }
        assert(out@ =~= padded(bytes@, len as nat));
        self.set_data(i, out);
        Ok(())
    }

    /// Takes `amount` lamports from account `i`; `InsufficientFunds` when it holds fewer.
    pub fn checked_sub_lamports(&mut self, i: usize, amount: u64) -> (r: Result<(), InstructionError>)
        requires
            i < old(self)@.accounts.len(),
        ensures
            (r, final(self)@) == spec_sub_lamports(old(self)@, i as int, amount),
    {
        let ghost before = self@;
        if self.accounts[i].lamports < amount {
            return Err(InstructionError::InsufficientFunds);
        }
        let acc = self.accounts.remove(i);
        let updated = AccountInfo { lamports: acc.lamports - amount, ..acc };
        self.accounts.insert(i, updated);
        assert(self@.accounts =~= spec_sub_lamports(before, i as int, amount).1.accounts);
        Ok(())
    }

    /// Adds `amount` lamports to account `i`; `ArithmeticOverflow` past `u64::MAX`.
    pub fn checked_add_lamports(&mut self, i: usize, amount: u64) -> (r: Result<(), InstructionError>)
        requires
            i < old(self)@.accounts.len(),
        ensures
            (r, final(self)@) == spec_add_lamports(old(self)@, i as int, amount),
    {
        let ghost before = self@;
        if self.accounts[i].lamports > u64::MAX - amount {
            return Err(InstructionError::ArithmeticOverflow);
        }
        let acc = self.accounts.remove(i);
        let updated = AccountInfo { lamports: acc.lamports + amount, ..acc };
        self.accounts.insert(i, updated);
        assert(self@.accounts =~= spec_add_lamports(before, i as int, amount).1.accounts);
        Ok(())
    }

    /// The key of account `i`, which must have signed.
    pub fn signer_key(&self, i: usize) -> (r: Result<Pubkey, InstructionError>)
        ensures
            r == spec_signer_key(self@, i as int),
    {
        if i >= self.accounts.len() {
            return Err(InstructionError::NotEnoughAccountKeys);
        }
        if !self.accounts[i].is_signer {
            return Err(InstructionError::MissingRequiredSignature);
        }
        Ok(self.accounts[i].key)
    }

    /// Checks that account `i` is `expected` and owned by the running program.
    pub fn verify_owned_account(&self, i: usize, expected: Pubkey) -> (r: Result<(), InstructionError>)
        ensures
            r == spec_verify_owned(self@, i as int, expected),
    {
        if i >= self.accounts.len() {
            return Err(InstructionError::NotEnoughAccountKeys);
        }
        if self.accounts[i].key != expected {
            return Err(InstructionError::InvalidArgument);
        }
        if self.accounts[i].owner != self.program_id {
            return Err(InstructionError::InvalidAccountOwner);
        }
        Ok(())
    }

    /// Moves `amount` lamports from account `src`, owned by the running program,
    /// to account `dst`.
    pub fn transfer_owned_lamports(&mut self, src: usize, dst: usize, amount: u64) -> (r: Result<(), InstructionError>)
        ensures
            (r, final(self)@) == spec_transfer_owned(old(self)@, src as int, dst as int, amount),
    {
        if src >= self.accounts.len() {
            return Err(InstructionError::NotEnoughAccountKeys);
        }
        if self.accounts[src].owner != self.program_id {
            return Err(InstructionError::InvalidAccountOwner);
        }
        if let Err(e) = self.checked_sub_lamports(src, amount) {
            return Err(e);
        }
        if dst >= self.accounts.len() {
            return Err(InstructionError::NotEnoughAccountKeys);
        }
        self.checked_add_lamports(dst, amount)
    }

    /// Sets the program's return data.
    pub fn set_return_data(&mut self, data: Vec<u8>)
        ensures
            final(self)@ == old(self)@.with_return(data@),
    {
        self.return_data = Some((self.program_id, data));
        assert(self@ =~= old(self)@.with_return(data@));
    }
}

/// An account passed to an instruction a client builds.
#[derive(Clone, Copy, Debug, PartialEq, Eq)]
pub struct AccountMeta {
    pub pubkey: Pubkey,
    pub is_signer: bool,
    pub is_writable: bool,
}

impl AccountMeta {
    /// A writable account.
    pub fn new(pubkey: Pubkey, is_signer: bool) -> (r: AccountMeta)
        ensures
            r == (AccountMeta { pubkey, is_signer, is_writable: true }),
    {
        AccountMeta { pubkey, is_signer, is_writable: true }
    }

    /// A read-only account.
    pub fn new_readonly(pubkey: Pubkey, is_signer: bool) -> (r: AccountMeta)
        ensures
            r == (AccountMeta { pubkey, is_signer, is_writable: false }),
    {
        AccountMeta { pubkey, is_signer, is_writable: false }
    }
}

/// An instruction for a program: its id, its accounts and its encoded data.
#[derive(Clone, Debug, PartialEq, Eq)]
pub struct Instruction {
    pub program_id: Pubkey,
    pub accounts: Vec<AccountMeta>,
    pub data: Vec<u8>,
}

} // verus!
