use vstd::prelude::*;

use std::collections::{BTreeMap, BTreeSet};
use std::marker::PhantomData;

use crate::account::{AccountError, AccountInfo, AccountMeta, Id};
use crate::address::Address;

verus! {

/// A borrowed account whose address is the one `T` stands for and which is
/// not marked executable. The only way to build one is through the checks of
/// [`NonExecutableProgram::try_from`].
#[derive(Debug)]
pub struct NonExecutableProgram<'info, T: Id> {
    info: &'info AccountInfo,
    _phantom: PhantomData<T>,
}

/// What validating `info` against the address of `T` gives: an address
/// mismatch first, then an executable account, else a handle on `info`.
pub open spec fn validated<'info, T: Id>(
    info: AccountInfo,
    r: Result<NonExecutableProgram<'info, T>, AccountError>,
) -> bool {
    if info.key@ != T::spec_id() {
        match r {
            Err(AccountError::InvalidProgramId { observed, expected }) => observed@ == info.key@
                && expected@ == T::spec_id(),
            _ => false,
        }
    } else if info.executable {
        r matches Err(AccountError::ConstraintExecutable)
    } else {
        (r matches Ok(w) && w.account() == info)
    }
}

/// A handle that validation built from `info` wraps `info` itself, so the
/// one account that `to_account_infos` hands back has `info`'s address and
/// its signer, writable and executable flags.
pub proof fn lemma_round_trip<'info, T: Id>(info: AccountInfo, w: NonExecutableProgram<'info, T>)
    requires
        validated(info, Ok(w)),
    ensures
        w.account().key@ == info.key@,
        w.account().is_signer == info.is_signer,
        w.account().is_writable == info.is_writable,
        w.account().executable == info.executable,
        w.account() == info,
{
}

impl<'info, T: Id> NonExecutableProgram<'info, T> {
    #[verifier::type_invariant]
    spec fn well_formed(self) -> bool {
        self.info.key@ == T::spec_id() && !self.info.executable
    }

    /// The wrapped account.
    pub closed spec fn account(self) -> AccountInfo {
        *self.info
    }

    fn new(info: &'info AccountInfo) -> (r: NonExecutableProgram<'info, T>)
        requires
            info.key@ == T::spec_id(),
            !info.executable,
        ensures
            r.account() == *info,
    {
        NonExecutableProgram { info, _phantom: PhantomData }
    }

    /// Checks that `info` sits at the address of `T` and is not executable,
    /// and wraps it.
    pub fn try_from(info: &'info AccountInfo) -> (r: Result<NonExecutableProgram<'info, T>, AccountError>)
        ensures
            validated(*info, r),
            info.key@ == T::spec_id() && !info.executable ==> (r matches Ok(w)
                && w.account().key@ == info.key@),
            info.key@ != T::spec_id() ==> r matches Err(AccountError::InvalidProgramId { .. }),
            info.key@ == T::spec_id() && info.executable ==> r matches Err(
                AccountError::ConstraintExecutable,
            ),
    {
        let expected = T::id();
        if !info.key.same_as(&expected) {
            return Err(AccountError::InvalidProgramId { observed: info.key, expected });
        }
        if info.executable {
            return Err(AccountError::ConstraintExecutable);
        }
        Ok(NonExecutableProgram::new(info))
    }

    /// Takes the first account off `accounts` and validates it. The other
    /// arguments are part of the loader's calling convention and are left
    /// untouched.
    pub fn try_accounts(
        _program_id: &Address,
        accounts: &mut &'info [AccountInfo],
        _ix_data: &[u8],
        _bumps: &mut BTreeMap<String, u8>,
        _reallocs: &mut BTreeSet<Address>,
    ) -> (r: Result<NonExecutableProgram<'info, T>, AccountError>)
        ensures
            old(accounts)@.len() == 0 ==> r matches Err(AccountError::AccountNotEnoughKeys),
            old(accounts)@.len() == 0 ==> final(accounts)@ == old(accounts)@,
            old(accounts)@.len() > 0 ==> final(accounts)@ == old(accounts)@.drop_first(),
            old(accounts)@.len() > 0 ==> validated(old(accounts)@[0], r),
            *final(_bumps) == *old(_bumps),
            *final(_reallocs) == *old(_reallocs),
    {
        if accounts.len() == 0 {
            return Err(AccountError::AccountNotEnoughKeys);
        }
        let all: &'info [AccountInfo] = *accounts;
        let (first, rest) = all.split_at(1);
        *accounts = rest;
        proof {
            assert(rest@ =~= all@.drop_first());
        }
        NonExecutableProgram::try_from(&first[0])
    }

    /// Metadata for passing the account on in an instruction: writable as the
    /// account is, and a signer as `is_signer` says, or as the account is when
    /// it says nothing.
    pub fn to_account_metas(&self, is_signer: Option<bool>) -> (r: Vec<AccountMeta>)
        ensures
            r@.len() == 1,
            r@[0].pubkey@ == self.account().key@,
            r@[0].is_writable == self.account().is_writable,
            r@[0].is_signer == match is_signer {
                Some(s) => s,
                None => self.account().is_signer,
            },
    {
        let is_signer = is_signer.unwrap_or(self.info.is_signer);
        let meta = if self.info.is_writable {
            AccountMeta::new(self.info.key, is_signer)
        } else {
            AccountMeta::new_readonly(self.info.key, is_signer)
        };
        vec![meta]
    }

    /// The wrapped account, as a list of one.
    pub fn to_account_infos(&self) -> (r: Vec<&'info AccountInfo>)
        ensures
            r@.len() == 1,
            *r@[0] == self.account(),
    {
        vec![self.info]
    }

    /// The wrapped account, which sits at the address of `T` and is not
    /// marked executable.
    pub fn as_ref(&self) -> (r: &'info AccountInfo)
        ensures
            *r == self.account(),
            r.key@ == T::spec_id(),
            !r.executable,
    {
        proof {
            use_type_invariant(self);
        }
        self.info
    }

    /// The address of the wrapped account, which is the address of `T`.
    pub fn key(&self) -> (r: Address)
        ensures
            r@ == self.account().key@,
            r@ == T::spec_id(),
    {
        proof {
            use_type_invariant(self);
        }
        self.info.key
    }
}

} // verus!
