//! The payments that were accepted, filed under their fingerprints.
use crate::address::Address;
use crate::address::Key;
use crate::table::Table;
use crate::verification::payment_fingerprint;
use vstd::prelude::*;

verus! {

/// What tells one payment from another.
#[derive(Clone, Copy, Debug)]
pub struct PaymentKey {
    pub payer: Address,
    pub merchant: Address,
    pub amount: i128,
}

impl Key for PaymentKey {
    fn same(&self, other: &PaymentKey) -> (r: bool) {
        self.payer == other.payer && self.merchant == other.merchant && self.amount == other.amount
    }
}

impl PaymentKey {
    /// The fingerprint under which the payment is filed.
    pub open spec fn print(self) -> u64 {
        crate::verification::fingerprint(self.payer, self.merchant, self.amount)
    }
}

/// A payment and the ledger at which it was last accepted.
#[derive(Clone, Copy, Debug)]
pub struct SeenPayment {
    pub payment: PaymentKey,
    pub ledger: u32,
}

/// The ledger at which each payment was last accepted. Payments that share a
/// fingerprint are filed together and told apart by payer, merchant and
/// amount.
pub struct SeenPayments {
    files: Table<u64, Table<PaymentKey, u32>>,
}

/// Every payment is filed under its own fingerprint.
spec fn well_filed(files: Map<u64, Table<PaymentKey, u32>>) -> bool {
    forall|print: u64, payment: PaymentKey|
        files.contains_key(print) && #[trigger] files[print]@.contains_key(payment)
            ==> payment.print() == print
}

impl SeenPayments {
    #[verifier::type_invariant]
    spec fn filed(self) -> bool {
        well_filed(self.files@)
    }
}

impl View for SeenPayments {
    type V = Map<PaymentKey, u32>;

    closed spec fn view(&self) -> Map<PaymentKey, u32> {
        Map::new(
            |payment: PaymentKey|
                self.files@.contains_key(payment.print())
                    && self.files@[payment.print()]@.contains_key(payment),
            |payment: PaymentKey| self.files@[payment.print()]@[payment],
        )
    }
}

impl SeenPayments {
    /// No payments.
    pub fn new() -> (r: SeenPayments)
        ensures
            r@ == Map::<PaymentKey, u32>::empty(),
    {
        let r = SeenPayments { files: Table::new() };
        assert(r@ =~= Map::<PaymentKey, u32>::empty());
        r
    }

    /// The ledger at which the payment was last accepted, if it was.
    pub fn get(&self, payment: &PaymentKey) -> (r: Option<u32>)
        ensures
            r == if self@.contains_key(*payment) {
                Some(self@[*payment])
            } else {
                None
            },
    {
        let print: u64 = payment_fingerprint(&payment.payer, &payment.merchant, payment.amount);
        match self.files.get(&print) {
            Some(file) => match file.get(payment) {
                Some(ledger) => Some(*ledger),
                None => None,
            },
            None => None,
        }
    }

    /// Notes the ledger at which the payment was accepted.
    pub fn set(&mut self, payment: PaymentKey, ledger: u32)
        ensures
            final(self)@ == old(self)@.insert(payment, ledger),
    {
        proof {
            use_type_invariant(&*self);
        }
        let ghost before = *self;
        let print: u64 = payment_fingerprint(&payment.payer, &payment.merchant, payment.amount);
        let mut files: Table<u64, Table<PaymentKey, u32>> = Table::new();
        std::mem::swap(&mut files, &mut self.files);
        let mut file = match files.take(&print) {
            Some(file) => file,
            None => Table::new(),
        };
        file.set(payment, ledger);
        files.set(print, file);
        assert(well_filed(files@)) by {
            assert forall|p: u64, k: PaymentKey|
                files@.contains_key(p) && #[trigger] files@[p]@.contains_key(k) implies k.print()
                == p by {
                if p != print {
                    assert(before.files@[p]@.contains_key(k));
                } else if k != payment {
                    assert(before.files@[print]@.contains_key(k));
                }
            }
        }
        self.files = files;
        assert(self@ =~= before@.insert(payment, ledger));
    }

    /// The payments that are filed under the fingerprint.
    pub fn filed_under(&self, print: u64) -> (r: Vec<SeenPayment>)
        ensures
            forall|i: int|
                0 <= i < r@.len() ==> (#[trigger] r@[i]).payment.print() == print
                    && self@.contains_key(r@[i].payment) && self@[r@[i].payment] == r@[i].ledger,
            forall|k: PaymentKey|
                k.print() == print && #[trigger] self@.contains_key(k) ==> exists|i: int|
                    0 <= i < r@.len() && (#[trigger] r@[i]).payment == k,
            forall|i: int, j: int|
                0 <= i < j < r@.len() ==> (#[trigger] r@[i]).payment != (#[trigger] r@[j]).payment,
    {
        proof {
            use_type_invariant(self);
        }
        let mut out: Vec<SeenPayment> = Vec::new();
        match self.files.get(&print) {
            Some(file) => {
                let entries = file.entries();
                let mut i: usize = 0;
                while i < entries.len()
                    invariant
                        i <= entries@.len(),
                        out@.len() == i,
                        forall|j: int|
                            0 <= j < i ==> (#[trigger] out@[j]).payment == entries@[j].0
                                && out@[j].ledger == entries@[j].1,
                    decreases entries@.len() - i,
                {
                    out.push(SeenPayment { payment: entries[i].0, ledger: entries[i].1 });
                    i = i + 1;
                }
                proof {
                    assert forall|j: int| 0 <= j < out@.len() implies (
                    #[trigger] out@[j]).payment.print() == print && self@.contains_key(
                        out@[j].payment,
                    ) && self@[out@[j].payment] == out@[j].ledger by {
                        assert(file@.contains_key(entries@[j].0));
                    }
                    assert forall|k: PaymentKey|
                        k.print() == print && #[trigger] self@.contains_key(k) implies exists|j: int|
                            0 <= j < out@.len() && (#[trigger] out@[j]).payment == k by {
                        assert(file@.contains_key(k));
                        let j = choose|j: int| 0 <= j < entries@.len() && (#[trigger] entries@[j]).0
                            == k;
                        assert(out@[j].payment == k);
                    }
                    assert forall|a: int, b: int| 0 <= a < b < out@.len() implies (
                    #[trigger] out@[a]).payment != (#[trigger] out@[b]).payment by {
                        assert(entries@[a].0 != entries@[b].0);
                    }
                }
            },
            None => {},
        }
        out
    }
}

} // verus!
