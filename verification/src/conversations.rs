//! Direct conversations: the page a listing reads, and the `Conversation`
//! entity assembled from a thread's participants and its last status.
use vstd::prelude::*;
use crate::batch::{order_by_ids, ordered_rows};
use crate::convert::{account_entity, account_from_db};
use crate::models::Account;
use crate::pagination::{page_window, PageWindow, PaginationParams};
use crate::text::{int_text, int_to_string};
use crate::types;
use crate::urls::InstanceUrls;

verus! {

/// The page of `GET /api/v1/conversations`: 20 by default, at most 40,
/// read forward from `min_id` or back from `max_id`, and served newest first
/// (`newest_first`).
pub fn conversation_page(p: &PaginationParams) -> (r: PageWindow)
    ensures
        r.limit == crate::pagination::limit_view(crate::pagination::opt_seq(p.limit), 20, 40),
        crate::pagination::opt_int(r.min_id) == crate::pagination::id_param(
            crate::pagination::opt_seq(p.min_id),
        ),
        r.reads_forward == (r.min_id is Some),
        r.reads_forward ==> r.max_id is None && r.since_id is None,
        !r.reads_forward ==> crate::pagination::opt_int(r.max_id) == crate::pagination::id_param(
            crate::pagination::opt_seq(p.max_id),
        ) && crate::pagination::opt_int(r.since_id) == crate::pagination::id_param(
            crate::pagination::opt_seq(p.since_id),
        ),
{
    page_window(p, 20, 40)
}

/// The ids of a batch of account rows.
pub open spec fn account_ids(accounts: Seq<Account>) -> Seq<i64> {
    accounts.map_values(|a: Account| a.id)
}

/// The ids of the rows, in order.
pub fn ids_of_accounts(accounts: &Vec<Account>) -> (r: Vec<i64>)
    ensures
        r@ == account_ids(accounts@),
{
    let mut out: Vec<i64> = Vec::new();
    let mut i: usize = 0;
    while i < accounts.len()
        invariant
            i <= accounts@.len(),
            out@ == account_ids(accounts@.take(i as int)),
        decreases accounts.len() - i,
    {
        proof {
            assert(account_ids(accounts@.take(i + 1)) =~= account_ids(accounts@.take(i as int)).push(
                accounts@[i as int].id,
            ));
        }
        out.push(accounts[i].id);
        i = i + 1;
    }
    assert(accounts@.take(accounts@.len() as int) =~= accounts@);
    out
}

/// The participants of a thread, as entities, in the order of its
/// participant ids; ids whose account was not found are left out.
pub fn participant_entities(
    urls: &InstanceUrls,
    participant_ids: &Vec<i64>,
    accounts: &Vec<Account>,
) -> (r: Vec<types::Account>)
    ensures
        r@.len() == ordered_rows(participant_ids@, account_ids(accounts@)).len(),
        forall|k: int|
            0 <= k < r@.len() ==> {
                let i = ordered_rows(participant_ids@, account_ids(accounts@))[k];
                &&& 0 <= i < accounts@.len()
                &&& account_entity(#[trigger] r@[k], *urls, accounts@[i], None)
            },
{
    let ids = ids_of_accounts(accounts);
    let rows = order_by_ids(participant_ids, &ids);
    let ghost want = ordered_rows(participant_ids@, account_ids(accounts@));
    assert(rows@.len() == want.len()) by {
        assert(rows@.map_values(|i: usize| i as int).len() == rows@.len());
    }
    let mut out: Vec<types::Account> = Vec::new();
    let mut k: usize = 0;
    while k < rows.len()
        invariant
            k <= rows@.len(),
            rows@.len() == want.len(),
            want == ordered_rows(participant_ids@, account_ids(accounts@)),
            rows@.map_values(|i: usize| i as int) == want,
            forall|j: int| 0 <= j < rows@.len() ==> #[trigger] rows@[j] < account_ids(
                accounts@,
            ).len(),
            account_ids(accounts@).len() == accounts@.len(),
            out@.len() == k,
            forall|j: int|
                0 <= j < k ==> {
                    let i = want[j];
                    &&& 0 <= i < accounts@.len()
                    &&& account_entity(#[trigger] out@[j], *urls, accounts@[i], None)
                },
        decreases rows.len() - k,
    {
        let i = rows[k];
        assert(want[k as int] == i as int) by {
            assert(rows@.map_values(|i: usize| i as int)[k as int] == rows@[k as int] as int);
        }
        assert(i < accounts@.len());
        let e = account_from_db(urls, &accounts[i]);
        out.push(e);
        k = k + 1;
    }
    out
}

/// Mastodon's `Conversation` entity for a thread.
pub fn conversation_entity(
    urls: &InstanceUrls,
    conversation_id: i64,
    unread: bool,
    participant_ids: &Vec<i64>,
    accounts: &Vec<Account>,
    last_status: Option<types::Status>,
) -> (r: types::Conversation)
    ensures
        r.id@ == int_text(conversation_id as int),
        r.unread == unread,
        r.last_status == last_status,
        r.accounts@.len() == ordered_rows(participant_ids@, account_ids(accounts@)).len(),
        forall|k: int|
            0 <= k < r.accounts@.len() ==> {
                let i = ordered_rows(participant_ids@, account_ids(accounts@))[k];
                &&& 0 <= i < accounts@.len()
                &&& account_entity(#[trigger] r.accounts@[k], *urls, accounts@[i], None)
            },
{
    let entities = participant_entities(urls, participant_ids, accounts);
    let r = types::Conversation { id: int_to_string(conversation_id), unread, accounts: entities, last_status };
    assert(r.accounts@ == entities@);
    proof {
        crate::batch::lemma_ordered_rows_in_range(participant_ids@, account_ids(accounts@));
        assert(account_ids(accounts@).len() == accounts@.len());
    }
    assert forall|k: int| 0 <= k < r.accounts@.len() implies {
        let i = ordered_rows(participant_ids@, account_ids(accounts@))[k];
        &&& 0 <= i < accounts@.len()
        &&& account_entity(#[trigger] r.accounts@[k], *urls, accounts@[i], None)
    } by {
        assert(r.accounts@[k] == entities@[k]);
    }
    r
}

/// The index of the last of the first `n` statuses that belong to thread
/// `id`: the one a map keyed by thread keeps.
pub open spec fn last_of_thread(threads: Seq<Option<i64>>, id: i64, n: int) -> Option<int>
    decreases n,
{
    if n <= 0 {
        None
    } else if threads[n - 1] == Some(id) {
        Some(n - 1)
    } else {
        last_of_thread(threads, id, n - 1)
    }
}

pub open spec fn opt_index(o: Option<usize>) -> Option<int> {
    match o {
        Some(i) => Some(i as int),
        None => None,
    }
}

/// The last status of thread `id`, by index.
pub fn thread_status(threads: &Vec<Option<i64>>, id: i64) -> (r: Option<usize>)
    ensures
        opt_index(r) == last_of_thread(threads@, id, threads@.len() as int),
{
    let mut i: usize = threads.len();
    while i > 0
        invariant
            i <= threads@.len(),
            last_of_thread(threads@, id, threads@.len() as int) == last_of_thread(
                threads@,
                id,
                i as int,
            ),
        decreases i,
    {
        if threads[i - 1] == Some(id) {
            return Some(i - 1);
        }
        i = i - 1;
    }
    None
}

/// The last status of each listed thread, by index into the fetched
/// statuses (whose threads are `threads`; `None` for a status outside any
/// thread or one that could not be rendered).
pub fn last_status_rows(conversation_ids: &Vec<i64>, threads: &Vec<Option<i64>>) -> (r: Vec<
    Option<usize>,
>)
    ensures
        r@.len() == conversation_ids@.len(),
        forall|k: int|
            0 <= k < r@.len() ==> opt_index(#[trigger] r@[k]) == last_of_thread(
                threads@,
                conversation_ids@[k],
                threads@.len() as int,
            ),
{
    let mut out: Vec<Option<usize>> = Vec::new();
    let mut k: usize = 0;
    while k < conversation_ids.len()
        invariant
            k <= conversation_ids@.len(),
            out@.len() == k,
            forall|j: int|
                0 <= j < k ==> opt_index(#[trigger] out@[j]) == last_of_thread(
                    threads@,
                    conversation_ids@[j],
                    threads@.len() as int,
                ),
        decreases conversation_ids.len() - k,
    {
        let found = thread_status(threads, conversation_ids[k]);
        out.push(found);
        k = k + 1;
    }
    out
}

} // verus!
