use vstd::prelude::*;
use crate::hexutil::{lower_seq, lowercase};

verus! {

/// A transaction descriptor with three independent optional id fields, as a
/// caller reading RPC data would supply it.
#[derive(Clone)]
pub struct Transaction {
    pub txid: Option<String>,
    pub wtxid: Option<String>,
    pub hash: Option<String>,
}

/// One entry of a caller-supplied transaction list: either a bare id string
/// or a descriptor.
#[derive(Clone)]
pub enum TxEntry {
    Id(String),
    Tx(Transaction),
}

/// The id txid-mode extraction takes from one entry: a bare string verbatim
/// (lowercased); a descriptor's `txid`, else its `hash`; nothing when both
/// are absent.
pub open spec fn tx_id_of(entry: TxEntry) -> Option<Seq<char>> {
    match entry {
        TxEntry::Id(s) => Some(lower_seq(s@)),
        TxEntry::Tx(t) => if t.txid is Some {
            Some(lower_seq(t.txid->0@))
        } else if t.hash is Some {
            Some(lower_seq(t.hash->0@))
        } else {
            None
        },
    }
}

/// The id witness-mode extraction takes from one entry: a bare string
/// verbatim (lowercased); a descriptor's `wtxid`, else `txid`, else `hash`.
pub open spec fn wtx_id_of(entry: TxEntry) -> Option<Seq<char>> {
    match entry {
        TxEntry::Id(s) => Some(lower_seq(s@)),
        TxEntry::Tx(t) => if t.wtxid is Some {
            Some(lower_seq(t.wtxid->0@))
        } else if t.txid is Some {
            Some(lower_seq(t.txid->0@))
        } else if t.hash is Some {
            Some(lower_seq(t.hash->0@))
        } else {
            None
        },
    }
}

/// The ordered ids a list yields in txid mode: entries yielding nothing are
/// dropped; the relative order of the rest is kept.
pub open spec fn extracted_tx_ids(entries: Seq<TxEntry>) -> Seq<Seq<char>>
    decreases entries.len(),
{
    if entries.len() == 0 {
        Seq::empty()
    } else {
        let rest = extracted_tx_ids(entries.drop_last());
        match tx_id_of(entries.last()) {
            Some(s) => rest.push(s),
            None => rest,
        }
    }
}

/// The ordered ids a list yields in witness mode.
pub open spec fn extracted_wtx_ids(entries: Seq<TxEntry>) -> Seq<Seq<char>>
    decreases entries.len(),
{
    if entries.len() == 0 {
        Seq::empty()
    } else {
        let rest = extracted_wtx_ids(entries.drop_last());
        match wtx_id_of(entries.last()) {
            Some(s) => rest.push(s),
            None => rest,
        }
    }
}

/// Txid-mode extraction over a borrowed list.
pub(crate) fn extract_tx_ids_ref(transactions: &Vec<TxEntry>) -> (r: Vec<String>)
    ensures
        r.deep_view() == extracted_tx_ids(transactions@),
{
    let n = transactions.len();
    let mut out: Vec<String> = Vec::new();
    let mut i: usize = 0;
    while i < n
        invariant
            n == transactions@.len(),
            i <= n,
            out.deep_view() == extracted_tx_ids(transactions@.take(i as int)),
        decreases n - i,
    {
        match &transactions[i] {
            TxEntry::Id(s) => {
                out.push(lowercase(s.as_str()));
            },
            TxEntry::Tx(t) => {
                match &t.txid {
                    Some(s) => {
                        out.push(lowercase(s.as_str()));
                    },
                    None => {
                        match &t.hash {
                            Some(s) => {
                                out.push(lowercase(s.as_str()));
                            },
                            None => {},
                        }
                    },
                }
            },
        }
        proof {
            assert(transactions@.take(i + 1 as int).drop_last() =~= transactions@.take(i as int));
            assert(transactions@.take(i + 1 as int).last() == transactions@[i as int]);
            assert(out.deep_view() =~~= extracted_tx_ids(transactions@.take(i + 1 as int)));
        }
        i += 1;
    }
    proof {
        assert(transactions@.take(n as int) =~= transactions@);
    }
    out
}

/// Witness-mode extraction over a borrowed list.
pub(crate) fn extract_wtx_ids_ref(transactions: &Vec<TxEntry>) -> (r: Vec<String>)
    ensures
        r.deep_view() == extracted_wtx_ids(transactions@),
{
    let n = transactions.len();
    let mut out: Vec<String> = Vec::new();
    let mut i: usize = 0;
    while i < n
        invariant
            n == transactions@.len(),
            i <= n,
            out.deep_view() == extracted_wtx_ids(transactions@.take(i as int)),
        decreases n - i,
    {
        match &transactions[i] {
            TxEntry::Id(s) => {
                out.push(lowercase(s.as_str()));
            },
            TxEntry::Tx(t) => {
                match &t.wtxid {
                    Some(s) => {
                        out.push(lowercase(s.as_str()));
                    },
                    None => {
                        match &t.txid {
                            Some(s) => {
                                out.push(lowercase(s.as_str()));
                            },
                            None => {
                                match &t.hash {
                                    Some(s) => {
                                        out.push(lowercase(s.as_str()));
                                    },
                                    None => {},
                                }
                            },
                        }
                    },
                }
            },
        }
        proof {
            assert(transactions@.take(i + 1 as int).drop_last() =~= transactions@.take(i as int));
            assert(transactions@.take(i + 1 as int).last() == transactions@[i as int]);
            assert(out.deep_view() =~~= extracted_wtx_ids(transactions@.take(i + 1 as int)));
        }
        i += 1;
    }
    proof {
        assert(transactions@.take(n as int) =~= transactions@);
    }
    out
}

} // verus!
