//! The space ledger of one miner: its idle, service and locked space, and the
//! cursor over the idle segments it has proven.

use crate::bloom::BloomFilter;
use crate::types::{
    AccountId, Accumulator, Balance, LedgerError, MinerState, SpaceProofInfo, TeeSig,
};
use vstd::prelude::*;

verus! {

/// Everything the ledger knows about one miner.
#[derive(Clone, Copy, Debug, PartialEq, Eq)]
pub struct MinerInfo {
    pub beneficiary: AccountId,
    pub staking_account: AccountId,
    pub state: MinerState,
    pub declaration_space: u128,
    pub idle_space: u128,
    pub service_space: u128,
    pub lock_space: u128,
    pub collaterals: Balance,
    pub space_proof_info: SpaceProofInfo,
    pub service_bloom_filter: BloomFilter,
    pub tee_signature: TeeSig,
}

/// The mathematical content of a [`MinerInfo`].
#[verifier::ext_equal]
pub struct MinerInfoView {
    pub beneficiary: AccountId,
    pub staking_account: AccountId,
    pub state: MinerState,
    pub declaration_space: u128,
    pub idle_space: u128,
    pub service_space: u128,
    pub lock_space: u128,
    pub collaterals: Balance,
    pub space_proof_info: SpaceProofInfo,
    pub service_bloom_filter: Seq<u64>,
    pub tee_signature: TeeSig,
}

impl View for MinerInfo {
    type V = MinerInfoView;

    open spec fn view(&self) -> MinerInfoView {
        MinerInfoView {
            beneficiary: self.beneficiary,
            staking_account: self.staking_account,
            state: self.state,
            declaration_space: self.declaration_space,
            idle_space: self.idle_space,
            service_space: self.service_space,
            lock_space: self.lock_space,
            collaterals: self.collaterals,
            space_proof_info: self.space_proof_info,
            service_bloom_filter: self.service_bloom_filter@,
            tee_signature: self.tee_signature,
        }
    }
}

impl MinerInfoView {
    /// The capacity rule: a miner never holds more space than it declared.
    pub open spec fn within_declaration(self) -> bool {
        self.idle_space + self.service_space + self.lock_space <= self.declaration_space
    }

    /// Whether the miner has left, or is leaving, the network. Changes of
    /// service space that arrive for such a miner are dropped.
    pub open spec fn departed(self) -> bool {
        self.state == MinerState::Offline || self.state == MinerState::Exiting
    }

    /// A miner in state `Positive` commits the idle segments up to `new_rear`:
    /// the record afterwards and the bytes of idle space gained, `seg_size`
    /// for each new segment.
    pub open spec fn commit_idle_growth(
        self,
        seg_size: u128,
        accumulator: Accumulator,
        expected_front: u64,
        new_rear: u64,
        signature: TeeSig,
    ) -> Result<(MinerInfoView, u128), LedgerError> {
        if self.state != MinerState::Positive {
            Err(LedgerError::InvalidState)
        } else {
            match self.space_proof_info.advance_rear(accumulator, expected_front, new_rear) {
                Err(e) => Err(e),
                Ok((cursor, count)) => {
                    let added = seg_size * count;
                    let held = self.idle_space + added + self.service_space + self.lock_space;
                    if held > u128::MAX {
                        Err(LedgerError::Overflow)
                    } else if held > self.declaration_space {
                        Err(LedgerError::ExceedingDeclarationSpace)
                    } else {
                        Ok(
                            (
                                MinerInfoView {
                                    idle_space: (self.idle_space + added) as u128,
                                    space_proof_info: cursor,
                                    tee_signature: signature,
                                    ..self
                                },
                                added as u128,
                            ),
                        )
                    }
                },
            }
        }
    }

    /// A miner retires the idle segments up to `new_front`: the record
    /// afterwards and the number of segments retired.
    pub open spec fn commit_idle_retirement(
        self,
        accumulator: Accumulator,
        new_front: u64,
        expected_rear: u64,
        signature: TeeSig,
    ) -> Result<(MinerInfoView, u64), LedgerError> {
        match self.space_proof_info.advance_front(accumulator, new_front, expected_rear) {
            Err(e) => Err(e),
            Ok((cursor, count)) => Ok(
                (MinerInfoView { space_proof_info: cursor, tee_signature: signature, ..self }, count),
            ),
        }
    }

    /// The record after `bytes` of idle space were given up.
    pub open spec fn apply_idle_shrink(self, bytes: u128) -> Result<MinerInfoView, LedgerError> {
        if bytes > self.idle_space {
            Err(LedgerError::Overflow)
        } else {
            Ok(MinerInfoView { idle_space: (self.idle_space - bytes) as u128, ..self })
        }
    }

    /// The record after `bytes` of service space were added. A departed miner
    /// stays as it is.
    pub open spec fn grow_service_space(self, bytes: u128) -> Result<MinerInfoView, LedgerError> {
        let held = self.idle_space + self.service_space + bytes + self.lock_space;
        if self.departed() {
            Ok(self)
        } else if held > u128::MAX {
            Err(LedgerError::Overflow)
        } else if held > self.declaration_space {
            Err(LedgerError::ExceedingDeclarationSpace)
        } else {
            Ok(MinerInfoView { service_space: (self.service_space + bytes) as u128, ..self })
        }
    }

    /// The record after `bytes` of service space were taken away. A departed
    /// miner stays as it is.
    pub open spec fn shrink_service_space(self, bytes: u128) -> Result<
        MinerInfoView,
        LedgerError,
    > {
        if self.departed() {
            Ok(self)
        } else if bytes > self.service_space {
            Err(LedgerError::Overflow)
        } else {
            Ok(MinerInfoView { service_space: (self.service_space - bytes) as u128, ..self })
        }
    }
}

impl MinerInfo {
    /// Whether the miner has left, or is leaving, the network.
    pub fn departed(&self) -> (gone: bool)
        ensures
            gone == self@.departed(),
    {
        self.state == MinerState::Offline || self.state == MinerState::Exiting
    }

    /// Commits the idle segments up to `rear` and returns the bytes of idle
    /// space gained. The caller states the front it saw in `check_front`; a
    /// stale view is rejected, and so is a `rear` that does not advance.
    pub fn commit_idle_growth(
        &mut self,
        seg_size: u128,
        accumulator: Accumulator,
        check_front: u64,
        rear: u64,
        tee_sig: TeeSig,
    ) -> (res: Result<u128, LedgerError>)
        ensures
            match old(self)@.commit_idle_growth(seg_size, accumulator, check_front, rear, tee_sig) {
                Ok((next, added)) => res == Ok::<u128, LedgerError>(added) && final(self)@ == next,
                Err(e) => res == Err::<u128, LedgerError>(e) && *final(self) == *old(self),
            },
    {
        if self.state != MinerState::Positive {
            return Err(LedgerError::InvalidState);
        }
        let mut cursor: SpaceProofInfo = self.space_proof_info;
        let count: u64 = match cursor.commit_growth(accumulator, check_front, rear) {
            Ok(count) => count,
            Err(e) => {
                return Err(e);
            },
        };
        let added: u128 = match seg_size.checked_mul(count as u128) {
            Some(v) => v,
            None => {
                return Err(LedgerError::Overflow);
            },
        };
        let idle_space: u128 = match self.idle_space.checked_add(added) {
            Some(v) => v,
            None => {
                return Err(LedgerError::Overflow);
            },
        };
        let with_service: u128 = match idle_space.checked_add(self.service_space) {
            Some(v) => v,
            None => {
                return Err(LedgerError::Overflow);
            },
        };
        let held: u128 = match with_service.checked_add(self.lock_space) {
            Some(v) => v,
            None => {
                return Err(LedgerError::Overflow);
            },
        };
        if held > self.declaration_space {
            return Err(LedgerError::ExceedingDeclarationSpace);
        }
        self.space_proof_info = cursor;
        self.idle_space = idle_space;
        self.tee_signature = tee_sig;
        Ok(added)
    }

    /// Retires the idle segments up to `front` and returns how many were
    /// retired. The caller states the rear it saw in `check_rear`; a stale
    /// view is rejected, and so is a `front` that does not advance.
    pub fn commit_idle_retirement(
        &mut self,
        accumulator: Accumulator,
        front: u64,
        check_rear: u64,
        tee_sig: TeeSig,
    ) -> (res: Result<u64, LedgerError>)
        ensures
            match old(self)@.commit_idle_retirement(accumulator, front, check_rear, tee_sig) {
                Ok((next, count)) => res == Ok::<u64, LedgerError>(count) && final(self)@ == next,
                Err(e) => res == Err::<u64, LedgerError>(e) && *final(self) == *old(self),
            },
    {
        let mut cursor: SpaceProofInfo = self.space_proof_info;
        let count: u64 = match cursor.commit_retirement(accumulator, front, check_rear) {
            Ok(count) => count,
            Err(e) => {
                return Err(e);
            },
        };
        self.space_proof_info = cursor;
        self.tee_signature = tee_sig;
        Ok(count)
    }

    /// Takes `bytes` away from the idle space.
    pub fn apply_idle_shrink(&mut self, bytes: u128) -> (res: Result<(), LedgerError>)
        ensures
            match old(self)@.apply_idle_shrink(bytes) {
                Ok(next) => res == Ok::<(), LedgerError>(()) && final(self)@ == next,
                Err(e) => res == Err::<(), LedgerError>(e) && *final(self) == *old(self),
            },
    {
        match self.idle_space.checked_sub(bytes) {
            Some(v) => {
                self.idle_space = v;
                Ok(())
            },
            None => Err(LedgerError::Overflow),
        }
    }

    /// Adds `bytes` to the service space, unless the miner has departed.
    pub fn grow_service_space(&mut self, bytes: u128) -> (res: Result<(), LedgerError>)
        ensures
            match old(self)@.grow_service_space(bytes) {
                Ok(next) => res == Ok::<(), LedgerError>(()) && final(self)@ == next,
                Err(e) => res == Err::<(), LedgerError>(e) && *final(self) == *old(self),
            },
    {
        if self.departed() {
            return Ok(());
        }
        let service_space: u128 = match self.service_space.checked_add(bytes) {
            Some(v) => v,
            None => {
                return Err(LedgerError::Overflow);
            },
        };
        let with_idle: u128 = match service_space.checked_add(self.idle_space) {
            Some(v) => v,
            None => {
                return Err(LedgerError::Overflow);
            },
        };
        let held: u128 = match with_idle.checked_add(self.lock_space) {
            Some(v) => v,
            None => {
                return Err(LedgerError::Overflow);
            },
        };
        if held > self.declaration_space {
            return Err(LedgerError::ExceedingDeclarationSpace);
        }
        self.service_space = service_space;
        Ok(())
    }

    /// Takes `bytes` away from the service space, unless the miner has departed.
    pub fn shrink_service_space(&mut self, bytes: u128) -> (res: Result<(), LedgerError>)
        ensures
            match old(self)@.shrink_service_space(bytes) {
                Ok(next) => res == Ok::<(), LedgerError>(()) && final(self)@ == next,
                Err(e) => res == Err::<(), LedgerError>(e) && *final(self) == *old(self),
            },
    {
        if self.departed() {
            return Ok(());
        }
        match self.service_space.checked_sub(bytes) {
            Some(v) => {
                self.service_space = v;
                Ok(())
            },
            None => Err(LedgerError::Overflow),
        }
    }
}

} // verus!
