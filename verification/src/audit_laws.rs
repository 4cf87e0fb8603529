//! Properties of the model browser rows, the command palette, tool-call
//! progress and session loading, stated over inputs and results.

use vstd::prelude::*;
use crate::app::{ProgressEvent, palette_names, progress_applied, slash_command_names};
use crate::browse::{AgentMessage, Role, session_loaded};
use crate::catalog::{
    EntryView, browser_rows, entry_matches, filter_entries, has_id, insert_by_id, only_available,
    sort_by_id, without_ids, filtered,
};
use crate::state::{AppModel, MessageView};
use crate::text::{ascii_lower_seq, byte_preview, has_prefix, trim};
use crate::app::filter_names;

verus! {

// ─── Membership through sequence operations ─────────────────────────────────

proof fn lemma_push_contains<A>(s: Seq<A>, y: A)
    ensures
        forall|x: A| #[trigger] s.push(y).contains(x) <==> (s.contains(x) || x == y),
{
    assert forall|x: A| #[trigger] s.push(y).contains(x) <==> (s.contains(x) || x == y) by {
        if s.push(y).contains(x) {
            let i = choose|i: int| 0 <= i < s.push(y).len() && s.push(y)[i] == x;
            if i < s.len() {
                assert(s[i] == x);
            }
        }
        if s.contains(x) {
            let i = choose|i: int| 0 <= i < s.len() && s[i] == x;
            assert(s.push(y)[i] == x);
        }
        if x == y {
            assert(s.push(y)[s.len() as int] == y);
        }
    }
}

proof fn lemma_add_contains<A>(a: Seq<A>, b: Seq<A>)
    ensures
        forall|x: A| #[trigger] (a + b).contains(x) <==> (a.contains(x) || b.contains(x)),
{
    assert forall|x: A| #[trigger] (a + b).contains(x) <==> (a.contains(x) || b.contains(x)) by {
        if (a + b).contains(x) {
            let i = choose|i: int| 0 <= i < (a + b).len() && (a + b)[i] == x;
            if i < a.len() {
                assert(a[i] == x);
            } else {
                assert(b[i - a.len()] == x);
            }
        }
        if a.contains(x) {
            let i = choose|i: int| 0 <= i < a.len() && a[i] == x;
            assert((a + b)[i] == x);
        }
        if b.contains(x) {
            let i = choose|i: int| 0 <= i < b.len() && b[i] == x;
            assert((a + b)[a.len() + i] == x);
        }
    }
}

proof fn lemma_split_last<A>(s: Seq<A>)
    requires
        s.len() > 0,
    ensures
        s == s.drop_last().push(s.last()),
        forall|x: A| #[trigger] s.contains(x) <==> (s.drop_last().contains(x) || x == s.last()),
{
    assert(s =~= s.drop_last().push(s.last()));
    lemma_push_contains(s.drop_last(), s.last());
}

proof fn lemma_insert_contains(s: Seq<EntryView>, e: EntryView)
    ensures
        forall|x: EntryView| #[trigger] insert_by_id(s, e).contains(x) <==> (s.contains(x) || x == e),
    decreases s.len(),
{
    if s.len() == 0 {
        assert(seq![e] =~= Seq::<EntryView>::empty().push(e));
        lemma_push_contains(Seq::<EntryView>::empty(), e);
    } else {
        lemma_split_last(s);
        if crate::catalog::text_le(s.last().id, e.id) {
            lemma_push_contains(s, e);
        } else {
            lemma_insert_contains(s.drop_last(), e);
            lemma_push_contains(insert_by_id(s.drop_last(), e), s.last());
        }
    }
}

proof fn lemma_sort_contains(s: Seq<EntryView>)
    ensures
        forall|x: EntryView| #[trigger] sort_by_id(s).contains(x) <==> s.contains(x),
    decreases s.len(),
{
    if s.len() > 0 {
        lemma_split_last(s);
        lemma_sort_contains(s.drop_last());
        lemma_insert_contains(sort_by_id(s.drop_last()), s.last());
    }
}

proof fn lemma_filter_entries_contains(s: Seq<EntryView>, q: Seq<char>, all: bool)
    ensures
        forall|x: EntryView| #[trigger] filter_entries(s, q, all).contains(x) <==> (s.contains(x)
            && (all || x.recommended_for_coding) && entry_matches(x, q)),
    decreases s.len(),
{
    if s.len() > 0 {
        lemma_split_last(s);
        lemma_filter_entries_contains(s.drop_last(), q, all);
        lemma_push_contains(filter_entries(s.drop_last(), q, all), s.last());
    }
}

proof fn lemma_without_ids_contains(s: Seq<EntryView>, excl: Seq<EntryView>)
    ensures
        forall|x: EntryView| #[trigger] without_ids(s, excl).contains(x) <==> (s.contains(x)
            && !has_id(excl, x.id)),
    decreases s.len(),
{
    if s.len() > 0 {
        lemma_split_last(s);
        lemma_without_ids_contains(s.drop_last(), excl);
        lemma_push_contains(without_ids(s.drop_last(), excl), s.last());
    }
}

proof fn lemma_only_available_contains(s: Seq<EntryView>)
    ensures
        forall|x: EntryView| #[trigger] only_available(s).contains(x) <==> (s.contains(x)
            && x.available),
    decreases s.len(),
{
    if s.len() > 0 {
        lemma_split_last(s);
        lemma_only_available_contains(s.drop_last());
        lemma_push_contains(only_available(s.drop_last()), s.last());
    }
}

proof fn lemma_filtered_contains(s: Seq<EntryView>, query: Seq<char>, all: bool)
    ensures
        forall|x: EntryView| #[trigger] filtered(s, query, all).contains(x) <==> (s.contains(x)
            && (all || x.recommended_for_coding) && entry_matches(x, ascii_lower_seq(trim(query)))),
{
    let q = ascii_lower_seq(trim(query));
    lemma_filter_entries_contains(s, q, all);
    lemma_sort_contains(filter_entries(s, q, all));
}

// ─── Model browser rows ─────────────────────────────────────────────────────

/// The model browser lists every available catalog entry that matches the
/// search, recommended for coding or not (catalog ids being distinct).
pub proof fn law_model_rows_list_every_available_match(s: Seq<EntryView>, query: Seq<char>, i: int)
    requires
        0 <= i < s.len(),
        s[i].available,
        entry_matches(s[i], ascii_lower_seq(trim(query))),
        forall|j: int, k: int| 0 <= j < s.len() && 0 <= k < s.len() && j != k ==> s[j].id != s[k].id,
    ensures
        browser_rows(s, query).contains(s[i]),
{
    let rec = filtered(s, query, false);
    let all = filtered(s, query, true);
    lemma_filtered_contains(s, query, false);
    lemma_filtered_contains(s, query, true);
    lemma_without_ids_contains(all, rec);
    lemma_add_contains(rec, without_ids(all, rec));
    lemma_only_available_contains(rec + without_ids(all, rec));
    assert(s.contains(s[i]));
    if s[i].recommended_for_coding {
        assert(rec.contains(s[i]));
    } else {
        assert(all.contains(s[i]));
        if has_id(rec, s[i].id) {
            let j = choose|j: int| 0 <= j < rec.len() && rec[j].id == s[i].id;
            assert(rec.contains(rec[j]));
            let k = choose|k: int| 0 <= k < s.len() && s[k] == rec[j];
            assert(k == i);
        }
        assert(without_ids(all, rec).contains(s[i]));
    }
    assert((rec + without_ids(all, rec)).contains(s[i]));
}

/// Every row of the model browser is an available catalog entry matching
/// the search.
pub proof fn law_model_rows_are_available_matches(s: Seq<EntryView>, query: Seq<char>, x: EntryView)
    requires
        browser_rows(s, query).contains(x),
    ensures
        s.contains(x),
        x.available,
        entry_matches(x, ascii_lower_seq(trim(query))),
{
    let rec = filtered(s, query, false);
    let all = filtered(s, query, true);
    lemma_filtered_contains(s, query, false);
    lemma_filtered_contains(s, query, true);
    lemma_without_ids_contains(all, rec);
    lemma_add_contains(rec, without_ids(all, rec));
    lemma_only_available_contains(rec + without_ids(all, rec));
}

/// Keeping the available entries of two parts keeps each part's own.
proof fn lemma_only_available_add(p: Seq<EntryView>, q: Seq<EntryView>)
    ensures
        only_available(p + q) == only_available(p) + only_available(q),
    decreases q.len(),
{
    if q.len() == 0 {
        assert(p + q =~= p);
        assert(only_available(p) + only_available(q) =~= only_available(p));
    } else {
        lemma_only_available_add(p, q.drop_last());
        assert((p + q).drop_last() =~= p + q.drop_last());
        assert((p + q).last() == q.last());
        if q.last().available {
            assert(only_available(p) + only_available(q) =~= (only_available(p) + only_available(
                q.drop_last(),
            )).push(q.last()));
        }
    }
}

/// In the model browser, every row recommended for coding comes before
/// every row that is not.
pub proof fn law_model_rows_recommended_first(s: Seq<EntryView>, query: Seq<char>, a: int, b: int)
    requires
        0 <= a < b < browser_rows(s, query).len(),
        browser_rows(s, query)[b].recommended_for_coding,
    ensures
        browser_rows(s, query)[a].recommended_for_coding,
{
    let rec = filtered(s, query, false);
    let all = filtered(s, query, true);
    let w = without_ids(all, rec);
    let r = browser_rows(s, query);
    lemma_filtered_contains(s, query, false);
    lemma_filtered_contains(s, query, true);
    lemma_without_ids_contains(all, rec);
    lemma_only_available_add(rec, w);
    lemma_only_available_contains(rec);
    lemma_only_available_contains(w);
    let n = only_available(rec).len();
    if b >= n {
        let x = r[b];
        assert(x == only_available(w)[b - n]);
        assert(only_available(w).contains(x));
        assert(w.contains(x));
        assert(all.contains(x));
        assert(rec.contains(x));
        let j = choose|j: int| 0 <= j < rec.len() && rec[j] == x;
        assert(rec[j].id == x.id);
        assert(has_id(rec, x.id));
    }
    assert(r[a] == only_available(rec)[a]);
    assert(only_available(rec).contains(r[a]));
}


// ─── Command palette ────────────────────────────────────────────────────────

proof fn lemma_filter_names_is_filter(s: Seq<Seq<char>>, q: Seq<char>)
    ensures
        filter_names(s, q) == s.filter(|n: Seq<char>| has_prefix(n, q)),
    decreases s.len(),
{
    reveal(Seq::filter);
    if s.len() > 0 {
        lemma_filter_names_is_filter(s.drop_last(), q);
    }
}

/// The palette offers exactly the slash commands whose name starts with the
/// ASCII-lowercased input (a name equal to it included), in table order.
pub proof fn law_palette_offers_every_prefix_match(input: Seq<char>)
    ensures
        palette_names(input) == slash_command_names().filter(
            |n: Seq<char>| has_prefix(n, ascii_lower_seq(input)),
        ),
        forall|j: int|
            0 <= j < slash_command_names().len() && has_prefix(
                #[trigger] slash_command_names()[j],
                ascii_lower_seq(input),
            ) ==> palette_names(input).contains(slash_command_names()[j]),
{
    let q = ascii_lower_seq(input);
    let pred = |n: Seq<char>| has_prefix(n, q);
    lemma_filter_names_is_filter(slash_command_names(), q);
    assert forall|j: int|
        0 <= j < slash_command_names().len() && has_prefix(
            #[trigger] slash_command_names()[j],
            q,
        ) implies palette_names(input).contains(slash_command_names()[j]) by {
        slash_command_names().filter_lemma(pred);
        assert(pred(slash_command_names()[j]));
        assert(slash_command_names().contains(slash_command_names()[j]));
    }
}

// ─── Tool-call progress ─────────────────────────────────────────────────────

/// `m` is a call of `tool` still running.
pub open spec fn is_open_call(m: MessageView, tool: Seq<char>) -> bool {
    m matches MessageView::ToolCall { tool_name, done, .. } && tool_name == tool && !done
}

proof fn lemma_last_open_call(msgs: Seq<MessageView>, tool: Seq<char>, n: int)
    requires
        0 <= n <= msgs.len(),
    ensures
        match crate::app::last_open_call(msgs, tool, n) {
            Some(k) => 0 <= k < n && is_open_call(msgs[k], tool) && forall|j: int|
                k < j < n ==> !is_open_call(#[trigger] msgs[j], tool),
            None => forall|j: int| 0 <= j < n ==> !is_open_call(#[trigger] msgs[j], tool),
        },
    decreases n,
{
    if n > 0 {
        lemma_last_open_call(msgs, tool, n - 1);
    }
}

/// A finished tool call marks the newest still-running call of that tool
/// as done (and nothing else) before its result is added; with no running
/// call of the tool, the history only gains the result.
pub proof fn law_finish_marks_newest_running_call(
    m: AppModel,
    call_id: String,
    tool_name: String,
    output: String,
    is_error: bool,
)
    ensures
        ({
            let msgs = m.chat.messages;
            let after = progress_applied(
                m,
                ProgressEvent::ToolCallFinished { call_id, tool_name, output, is_error },
            ).chat.messages;
            &&& after.len() == msgs.len() + 1
            &&& after.last() == MessageView::ToolResult {
                tool_name: tool_name@,
                output_preview: byte_preview(output@, 120),
                is_error,
            }
            &&& (forall|j: int| 0 <= j < msgs.len() ==> !is_open_call(#[trigger] msgs[j], tool_name@))
                ==> after.drop_last() == msgs
            &&& forall|k: int|
                0 <= k < msgs.len() && is_open_call(msgs[k], tool_name@) && (forall|j: int|
                    k < j < msgs.len() ==> !is_open_call(#[trigger] msgs[j], tool_name@))
                    ==> after.drop_last() == msgs.update(
                    k,
                    MessageView::ToolCall {
                        tool_name: tool_name@,
                        args_preview: msgs[k]->ToolCall_args_preview,
                        done: true,
                    },
                )
        }),
{
    let msgs = m.chat.messages;
    let t = tool_name@;
    lemma_last_open_call(msgs, t, msgs.len() as int);
    let after = progress_applied(
        m,
        ProgressEvent::ToolCallFinished { call_id, tool_name, output, is_error },
    ).chat.messages;
    let marked = crate::app::mark_call_done(msgs, t);
    assert(after.drop_last() =~= marked);
    assert forall|k: int|
        0 <= k < msgs.len() && is_open_call(msgs[k], t) && (forall|j: int|
            k < j < msgs.len() ==> !is_open_call(#[trigger] msgs[j], t)) implies marked
        == msgs.update(
        k,
        MessageView::ToolCall { tool_name: t, args_preview: msgs[k]->ToolCall_args_preview, done: true },
    ) by {
        match crate::app::last_open_call(msgs, t, msgs.len() as int) {
            Some(k2) => {
                if k2 < k {
                    assert(!is_open_call(msgs[k], t));
                }
                if k2 > k {
                    assert(!is_open_call(msgs[k2], t));
                }
                assert(k2 == k);
            },
            None => {
                assert(!is_open_call(msgs[k], t));
            },
        }
    }
}

// ─── Loading a stored session ───────────────────────────────────────────────

/// Loading a session shows each stored message after the ones before it:
/// an assistant message as its tool calls (done), then its text when it
/// is not empty, whether or not it made tool calls; a user message as its
/// text; a tool message as its output.
pub proof fn law_loaded_history_shows_each_message(
    m: AppModel,
    id: Seq<char>,
    msgs: Seq<AgentMessage>,
    msg: AgentMessage,
)
    ensures
        ({
            let before = session_loaded(m, id, msgs).chat.messages;
            let after = session_loaded(m, id, msgs.push(msg)).chat.messages;
            let calls = match msg.tool_calls {
                Some(tc) => Seq::new(
                    tc@.len(),
                    |i: int|
                        MessageView::ToolCall {
                            tool_name: tc@[i].name@,
                            args_preview: tc@[i].arguments@,
                            done: true,
                        },
                ),
                None => Seq::<MessageView>::empty(),
            };
            &&& msg.role == Role::Assistant && msg.content@.len() > 0 ==> after == before + calls
                + seq![MessageView::Assistant(msg.content@)]
            &&& msg.role == Role::Assistant && msg.content@.len() == 0 ==> after == before + calls
            &&& msg.role == Role::User ==> after == before + seq![MessageView::User(msg.content@)]
            &&& msg.role == Role::Tool ==> after.len() == before.len() + 1 && after.last()
                == MessageView::ToolResult {
                tool_name: match msg.tool_name {
                    Some(t) => t@,
                    None => Seq::empty(),
                },
                output_preview: msg.content@,
                is_error: false,
            }
        }),
{
    let all = msgs.push(msg);
    assert(all.drop_last() =~= msgs);
    assert(all.last() == msg);
    let calls = crate::browse::calls_of(msg);
    if msg.role == Role::Assistant && msg.content@.len() > 0 {
        assert(calls.push(MessageView::Assistant(msg.content@)) =~= calls + seq![
            MessageView::Assistant(msg.content@),
        ]);
        assert(crate::browse::history_of(msgs) + calls.push(MessageView::Assistant(msg.content@))
            =~= crate::browse::history_of(msgs) + calls + seq![MessageView::Assistant(msg.content@)]);
    }
}

} // verus!
