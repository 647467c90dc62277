//! What holds of the operations of the service, whatever the store holds and
//! however it answers within its meaning.
//!
//! A law speaks of a run of an operation (`model::runs`): the operation asks
//! its commands one after the other, and the store answers each as
//! `model::Store::answers` allows, which includes that it may fail at any
//! time. What a law says of the store afterwards it says of that model.

use vstd::prelude::*;
use vstd::set_lib::*;
use crate::commands::Command;
use crate::error::ErrorView;
use crate::handlers::tags::{creating_tag, updating_tag, verify_from, TicketTagsChange};
use crate::handlers::tickets::{creating_ticket, status_only, updating_ticket};
use crate::listing::{
    count_tickets, lemma_shape_decides_the_text, page_limit, page_offset, same_shape,
    select_page, FilterView, ListingView, COUNT_TICKETS, DEFAULT_LIMIT, MAX_LIMIT,
    SELECT_TICKETS,
};
use crate::model::{runs, Store};
use crate::models::{
    CreateTagRequest, CreateTicketRequest, Id, PaginatedResponse, Priority, Tag, Ticket,
    TicketQuery, TicketStatus, TicketWithTags, Timestamp, UpdateTagRequest, UpdateTicketRequest,
};
use crate::repositories::tags::{
    color_or_default, tag_name_taken, tag_not_found, TagDelete, TagOp, TagRepository,
};
use crate::repositories::tickets::{
    attach_from, priority_or_default, ticket_not_found, TicketDelete, TicketListView, TicketOp,
    TicketRepository, TicketTagsOp,
};
use crate::sql::StatementView;
use crate::store::{Plan, Reply};
use crate::validation::verdict;

verus! {

/// What the removal of a ticket leaves behind when it ends well: the ticket
/// is gone, no tag is attached to it and no comment is left of it. Looking
/// the ticket up with its tags afterwards ends with the failure of a ticket
/// that is not there, unless the store fails, and the store lists no comment
/// of it.
pub proof fn law_removed_ticket_leaves_nothing(
    store: Store,
    id: Id,
    steps: nat,
    after: Store,
    later_steps: nat,
    later_result: Result<TicketWithTags, ErrorView>,
    later: Store,
    reply: Reply,
    last: Store,
)
    requires
        runs(
            TicketRepository::deleting(id),
            |state: TicketDelete, reply: Reply| state.next(reply),
            store,
            steps,
            Ok(()),
            after,
        ),
        runs(
            TicketRepository::getting_with_tags(id),
            |state: TicketTagsOp, reply: Reply| state.next(reply),
            after,
            later_steps,
            later_result,
            later,
        ),
        after.answers(Command::SelectCommentsOfTicket(id), reply, last),
    ensures
        !after.tickets.contains_key(id),
        after.tags_of(id) == Set::<Id>::empty(),
        after.comments_of(id) == Set::<Id>::empty(),
        later_result == Err::<TicketWithTags, ErrorView>(ticket_not_found())
            || later_result matches Err(ErrorView::Database(_)),
        reply is Failed || (reply matches Reply::Comments(rows) && rows@.len() == 0),
{
    reveal_with_fuel(runs, 4);
    let next = |state: TicketDelete, reply: Reply| state.next(reply);
    let (r1, s1) = choose|r1: Reply, s1: Store| #[trigger]
        store.answers(Command::DeleteTicketLinks(id), r1, s1) && runs(
            next(TicketDelete::Detaching { id }, r1),
            next,
            s1,
            (steps - 1) as nat,
            Ok(()),
            after,
        );
    assert(r1 is Affected);
    let (r2, s2) = choose|r2: Reply, s2: Store| #[trigger]
        s1.answers(Command::DeleteTicketComments(id), r2, s2) && runs(
            next(TicketDelete::Uncommenting { id }, r2),
            next,
            s2,
            (steps - 2) as nat,
            Ok(()),
            after,
        );
    assert(r2 is Affected);
    let (r3, s3) = choose|r3: Reply, s3: Store| #[trigger]
        s2.answers(Command::DeleteTicket(id), r3, s3) && runs(
            next(TicketDelete::Removing, r3),
            next,
            s3,
            (steps - 3) as nat,
            Ok(()),
            after,
        );
    assert(r3 is Affected);
    assert(s3 == after);
    assert(after.tags_of(id) =~= Set::<Id>::empty());
    assert(after.comments_of(id) =~= Set::<Id>::empty());
    let look = |state: TicketTagsOp, reply: Reply| state.next(reply);
    let (r4, s4) = choose|r4: Reply, s4: Store| #[trigger]
        after.answers(Command::SelectTicketById(id), r4, s4) && runs(
            look(TicketTagsOp::Fetching { id }, r4),
            look,
            s4,
            (later_steps - 1) as nat,
            later_result,
            later,
        );
    if let Reply::Comments(rows) = reply {
        if rows@.len() > 0 {
            assert(after.comments_of(id).contains(rows@[0].id));
        }
    }
}

/// A tag cannot be created under a name that a tag bears: the creation ends
/// with a conflict, or with the failure of the store, and the store is left
/// as it was.
pub proof fn law_taken_name_is_a_conflict(
    store: Store,
    request: CreateTagRequest,
    id: Id,
    now: Timestamp,
    steps: nat,
    result: Result<Tag, ErrorView>,
    after: Store,
)
    requires
        store.wf(),
        verdict(request.violations()) is Ok,
        exists|other: Id| #[trigger]
            store.tags.contains_key(other) && store.tags[other].name@ == request.name@,
        runs(
            creating_tag(request, id, now),
            |state: TagOp, reply: Reply| state.next(reply),
            store,
            steps,
            result,
            after,
        ),
    ensures
        result == Err::<Tag, ErrorView>(tag_name_taken()) || result matches Err(
            ErrorView::Database(_),
        ),
        after == store,
{
    reveal_with_fuel(runs, 2);
    let next = |state: TagOp, reply: Reply| state.next(reply);
    let command = Command::CountTagsNamed { name: request.name@, exclude: None };
    let waiting = TagOp::CreateChecking { id, name: request.name, color: request.color, now };
    let (r1, s1) = choose|r1: Reply, s1: Store| #[trigger]
        store.answers(command, r1, s1) && runs(
            next(waiting, r1),
            next,
            s1,
            (steps - 1) as nat,
            result,
            after,
        );
    let named = store.tags_named(request.name@, None);
    let other = choose|other: Id| #[trigger]
        store.tags.contains_key(other) && store.tags[other].name@ == request.name@;
    assert(named.contains(other));
    assert(named.subset_of(store.tags.dom()));
    lemma_set_subset_finite(store.tags.dom(), named);
    if named.len() == 0 {
        named.lemma_len0_is_empty();
    }
}

/// A tag of a name that no tag bears, under an identifier that no tag has,
/// is created unless the store fails: the creation ends with the tag as the
/// store holds it from then on, of the name asked for, and of the colour
/// asked for or else of the default colour.
pub proof fn law_fresh_name_is_created(
    store: Store,
    request: CreateTagRequest,
    id: Id,
    now: Timestamp,
    steps: nat,
    result: Result<Tag, ErrorView>,
    after: Store,
)
    requires
        store.wf(),
        verdict(request.violations()) is Ok,
        forall|other: Id| #[trigger]
            store.tags.contains_key(other) ==> store.tags[other].name@ != request.name@,
        runs(
            creating_tag(request, id, now),
            |state: TagOp, reply: Reply| state.next(reply),
            store,
            steps,
            result,
            after,
        ),
    ensures
        match result {
            Ok(tag) => {
                &&& tag.id == id
                &&& tag.name@ == request.name@
                &&& tag.color@ == color_or_default(request.color)
                &&& after.tags == store.tags.insert(id, tag)
            },
            Err(error) => error is Database && after == store,
        },
{
    reveal_with_fuel(runs, 3);
    let next = |state: TagOp, reply: Reply| state.next(reply);
    let command = Command::CountTagsNamed { name: request.name@, exclude: None };
    let waiting = TagOp::CreateChecking { id, name: request.name, color: request.color, now };
    let (r1, s1) = choose|r1: Reply, s1: Store| #[trigger]
        store.answers(command, r1, s1) && runs(
            next(waiting, r1),
            next,
            s1,
            (steps - 1) as nat,
            result,
            after,
        );
    let named = store.tags_named(request.name@, None);
    assert(named =~= Set::<Id>::empty());
    if !(r1 is Failed) {
        let insert = Command::InsertTag {
            id,
            name: request.name@,
            color: color_or_default(request.color),
            now,
        };
        let (r2, s2) = choose|r2: Reply, s2: Store| #[trigger]
            s1.answers(insert, r2, s2) && runs(
                next(TagOp::Inserting, r2),
                next,
                s2,
                (steps - 2) as nat,
                result,
                after,
            );
    }
}

/// A tag that was created is found again under its identifier as it was
/// given back, name and colour included, unless the store fails.
pub proof fn law_created_tag_is_found(
    store: Store,
    request: CreateTagRequest,
    id: Id,
    now: Timestamp,
    steps: nat,
    tag: Tag,
    after: Store,
    later_steps: nat,
    found: Result<Tag, ErrorView>,
    later: Store,
)
    requires
        runs(
            creating_tag(request, id, now),
            |state: TagOp, reply: Reply| state.next(reply),
            store,
            steps,
            Ok(tag),
            after,
        ),
        runs(
            TagRepository::getting(id),
            |state: TagOp, reply: Reply| state.next(reply),
            after,
            later_steps,
            found,
            later,
        ),
    ensures
        tag.name@ == request.name@,
        tag.color@ == color_or_default(request.color),
        found == Ok::<Tag, ErrorView>(tag) || found matches Err(ErrorView::Database(_)),
{
    reveal_with_fuel(runs, 3);
    let next = |state: TagOp, reply: Reply| state.next(reply);
    let command = Command::CountTagsNamed { name: request.name@, exclude: None };
    let waiting = TagOp::CreateChecking { id, name: request.name, color: request.color, now };
    let (r1, s1) = choose|r1: Reply, s1: Store| #[trigger]
        store.answers(command, r1, s1) && runs(
            next(waiting, r1),
            next,
            s1,
            (steps - 1) as nat,
            Ok(tag),
            after,
        );
    let insert = Command::InsertTag {
        id,
        name: request.name@,
        color: color_or_default(request.color),
        now,
    };
    let (r2, s2) = choose|r2: Reply, s2: Store| #[trigger]
        s1.answers(insert, r2, s2) && runs(
            next(TagOp::Inserting, r2),
            next,
            s2,
            (steps - 2) as nat,
            Ok(tag),
            after,
        );
    let (r3, s3) = choose|r3: Reply, s3: Store| #[trigger]
        after.answers(Command::SelectTagById(id), r3, s3) && runs(
            next(TagOp::Fetching, r3),
            next,
            s3,
            (later_steps - 1) as nat,
            found,
            later,
        );
}

/// The attachments that a ticket gets when the tags of a list are attached
/// from a position on.
pub open spec fn attachments(id: Id, tag_ids: Seq<Id>, from: int) -> Set<(Id, Id)> {
    Set::new(
        |link: (Id, Id)|
            link.0 == id && exists|i: int|
                from <= i < tag_ids.len() && #[trigger] tag_ids[i] == link.1,
    )
}

/// Attaching the tags of a list one by one, when it ends well, ends with
/// the ticket that it started with, and adds to the store the attachment of
/// each of those tags and nothing else.
pub proof fn lemma_attaching_adds_each(
    id: Id,
    ticket: Ticket,
    tag_ids: Vec<Id>,
    from: usize,
    store: Store,
    steps: nat,
    result: Result<Ticket, ErrorView>,
    after: Store,
)
    requires
        result is Ok,
        runs(
            attach_from(id, ticket, tag_ids, from),
            |state: TicketOp, reply: Reply| state.next(reply),
            store,
            steps,
            result,
            after,
        ),
    ensures
        result == Ok::<Ticket, ErrorView>(ticket),
        after == (Store { links: store.links.union(attachments(id, tag_ids@, from as int)), ..store }),
    decreases steps,
{
    reveal_with_fuel(runs, 2);
    let next = |state: TicketOp, reply: Reply| state.next(reply);
    assert(tag_ids.len() == tag_ids@.len());
    if from < tag_ids@.len() {
        let waiting = TicketOp::Attaching { id, ticket, tag_ids, next: (from + 1) as usize };
        let command = Command::AttachTag { ticket_id: id, tag_id: tag_ids@[from as int] };
        let (r1, s1) = choose|r1: Reply, s1: Store| #[trigger]
            store.answers(command, r1, s1) && runs(
                next(waiting, r1),
                next,
                s1,
                (steps - 1) as nat,
                result,
                after,
            );
        assert(r1 is Affected);
        lemma_attaching_adds_each(
            id,
            ticket,
            tag_ids,
            (from + 1) as usize,
            s1,
            (steps - 1) as nat,
            result,
            after,
        );
        assert(store.links.insert((id, tag_ids@[from as int])).union(
            attachments(id, tag_ids@, from + 1),
        ) =~= store.links.union(attachments(id, tag_ids@, from as int)));
    } else {
        assert(attachments(id, tag_ids@, from as int) =~= Set::<(Id, Id)>::empty());
        assert(store.links.union(Set::<(Id, Id)>::empty()) =~= store.links);
    }
}

/// A ticket that was created is open and of the priority asked for, or of
/// medium priority where none was asked for, whatever else the request
/// holds; it bears the tags that the request names, and the store holds it
/// as it was given back.
pub proof fn law_created_ticket_is_open(
    store: Store,
    request: CreateTicketRequest,
    id: Id,
    now: Timestamp,
    steps: nat,
    ticket: Ticket,
    after: Store,
)
    requires
        runs(
            creating_ticket(request, id, now),
            |state: TicketOp, reply: Reply| state.next(reply),
            store,
            steps,
            Ok(ticket),
            after,
        ),
    ensures
        ticket.status == TicketStatus::Open,
        ticket.priority == priority_or_default(request.priority),
        request.priority is None ==> ticket.priority == Priority::Medium,
        ticket.title@ == request.title@,
        after.tickets == store.tickets.insert(id, ticket),
        request.tag_ids matches Some(ids) ==> forall|i: int|
            0 <= i < ids@.len() ==> after.tags_of(id).contains(#[trigger] ids@[i]),
{
    reveal_with_fuel(runs, 2);
    let next = |state: TicketOp, reply: Reply| state.next(reply);
    let waiting = TicketOp::Creating { id, tag_ids: request.tag_ids };
    let (r1, s1) = choose|r1: Reply, s1: Store| #[trigger]
        store.answers(request.insertion(id, now), r1, s1) && runs(
            next(waiting, r1),
            next,
            s1,
            (steps - 1) as nat,
            Ok(ticket),
            after,
        );
    match r1 {
        Reply::Tickets(rows) => {
            match request.tag_ids {
                Some(ids) => {
                    lemma_attaching_adds_each(
                        id,
                        rows@[0],
                        ids,
                        0,
                        s1,
                        (steps - 1) as nat,
                        Ok(ticket),
                        after,
                    );
                    assert forall|i: int| 0 <= i < ids@.len() implies after.tags_of(id).contains(
                        #[trigger] ids@[i],
                    ) by {
                        assert(attachments(id, ids@, 0).contains((id, ids@[i])));
                    }
                },
                None => {},
            }
        },
        _ => {},
    }
}

/// A change of a ticket that names tags replaces the tags of the ticket:
/// when it ends well, the ticket bears the tags named and no other, and
/// every other ticket bears the tags it bore. A change that names an empty
/// list leaves the ticket without tags.
pub proof fn law_named_tags_replace_all(
    store: Store,
    id: Id,
    request: UpdateTicketRequest,
    now: Timestamp,
    steps: nat,
    ticket: Ticket,
    after: Store,
)
    requires
        request.tag_ids is Some,
        runs(
            TicketRepository::updating(id, request, now),
            |state: TicketOp, reply: Reply| state.next(reply),
            store,
            steps,
            Ok(ticket),
            after,
        ),
    ensures
        after.tags_of(id) == request.tag_ids->0@.to_set(),
        request.tag_ids->0@.len() == 0 ==> after.tags_of(id) == Set::<Id>::empty(),
        forall|other: Id| other != id ==> #[trigger] after.tags_of(other) == store.tags_of(other),
{
    reveal_with_fuel(runs, 3);
    let next = |state: TicketOp, reply: Reply| state.next(reply);
    let ids = request.tag_ids->0;
    let waiting = TicketOp::Updating { id, tag_ids: request.tag_ids };
    let command = if request.changes_fields() {
        Command::UpdateTicket { id, changes: request.changes(), now }
    } else {
        Command::SelectTicketById(id)
    };
    let (r1, s1) = choose|r1: Reply, s1: Store| #[trigger]
        store.answers(command, r1, s1) && runs(
            next(waiting, r1),
            next,
            s1,
            (steps - 1) as nat,
            Ok(ticket),
            after,
        );
    assert(s1.links == store.links);
    match r1 {
        Reply::Tickets(rows) => {
            let clearing = TicketOp::Clearing { id, ticket: rows@[0], tag_ids: ids };
            let (r2, s2) = choose|r2: Reply, s2: Store| #[trigger]
                s1.answers(Command::DeleteTicketLinks(id), r2, s2) && runs(
                    next(clearing, r2),
                    next,
                    s2,
                    (steps - 2) as nat,
                    Ok(ticket),
                    after,
                );
            assert(r2 is Affected);
            lemma_attaching_adds_each(
                id,
                rows@[0],
                ids,
                0,
                s2,
                (steps - 2) as nat,
                Ok(ticket),
                after,
            );
            assert forall|tag_id: Id| after.tags_of(id).contains(tag_id) <==> ids@.to_set().contains(
                tag_id,
            ) by {
                if ids@.to_set().contains(tag_id) {
                    let i = choose|i: int| 0 <= i < ids@.len() && ids@[i] == tag_id;
                    assert(attachments(id, ids@, 0).contains((id, ids@[i])));
                }
                if after.tags_of(id).contains(tag_id) {
                    assert(!s2.links.contains((id, tag_id)));
                    assert(attachments(id, ids@, 0).contains((id, tag_id)));
                }
            }
            assert(after.tags_of(id) =~= ids@.to_set());
            if ids@.len() == 0 {
                assert(ids@.to_set() =~= Set::<Id>::empty());
            }
            assert forall|other: Id| other != id implies #[trigger] after.tags_of(other)
                == store.tags_of(other) by {
                assert forall|tag_id: Id| after.tags_of(other).contains(tag_id)
                    <==> store.tags_of(other).contains(tag_id) by {
                    assert(!attachments(id, ids@, 0).contains((other, tag_id)));
                }
                assert(after.tags_of(other) =~= store.tags_of(other));
            }
        },
        _ => {},
    }
}

/// A page of a listing holds only tickets of the store that its filter
/// selects: with a status asked for, tickets of exactly that status, and
/// with a priority asked for as well, tickets of that status and that
/// priority. Its total is the number of all tickets that the filter
/// selects, whatever the page's limit and offset are, and the page is no
/// longer than its limit, which is never above a hundred.
pub proof fn law_page_holds_what_is_selected(
    store: Store,
    query: TicketQuery,
    steps: nat,
    page: PaginatedResponse<Ticket>,
    after: Store,
)
    requires
        runs(
            TicketRepository::listing(query),
            |state: TicketListView, reply: Reply| state.next(reply),
            store,
            steps,
            Ok(page),
            after,
        ),
    ensures
        query.resolved() is Ok,
        page.total == store.selected(query.resolved()->Ok_0.filter).len(),
        page.limit == page_limit(query.limit),
        page.limit <= 100,
        page.offset == page_offset(query.offset),
        page.data@.len() <= page.limit,
        forall|i: int|
            0 <= i < page.data@.len() ==> {
                let row = #[trigger] page.data@[i];
                &&& store.tickets.contains_key(row.id)
                &&& store.tickets[row.id] == row
                &&& store.selects(query.resolved()->Ok_0.filter, row)
                &&& query.status matches Some(status) ==> row.status == status
                &&& query.priority matches Some(priority) ==> row.priority == priority
            },
        after == store,
{
    reveal_with_fuel(runs, 3);
    let next = |state: TicketListView, reply: Reply| state.next(reply);
    let listing = query.resolved()->Ok_0;
    let (r1, s1) = choose|r1: Reply, s1: Store| #[trigger]
        store.answers(Command::CountTickets(listing.filter), r1, s1) && runs(
            next(TicketListView::Counting { listing }, r1),
            next,
            s1,
            (steps - 1) as nat,
            Ok(page),
            after,
        );
    match r1 {
        Reply::Count(total) => {
            let paging = TicketListView::Paging {
                total,
                limit: listing.limit,
                offset: listing.offset,
            };
            let (r2, s2) = choose|r2: Reply, s2: Store| #[trigger]
                s1.answers(Command::SelectPage(listing), r2, s2) && runs(
                    next(paging, r2),
                    next,
                    s2,
                    (steps - 2) as nat,
                    Ok(page),
                    after,
                );
            assert forall|i: int| 0 <= i < page.data@.len() implies {
                let row = #[trigger] page.data@[i];
                &&& store.tickets.contains_key(row.id)
                &&& store.tickets[row.id] == row
                &&& store.selects(listing.filter, row)
                &&& query.status matches Some(status) ==> row.status == status
                &&& query.priority matches Some(priority) ==> row.priority == priority
            } by {
                let row = page.data@[i];
                assert(store.selected(listing.filter).contains(row.id));
            }
        },
        _ => {},
    }
}

/// The total of a page does not depend on the page asked for: two listings
/// of the same store whose queries differ in limit and offset only have the
/// same total.
pub proof fn law_total_ignores_the_page(
    store: Store,
    first: TicketQuery,
    second: TicketQuery,
    first_steps: nat,
    first_page: PaginatedResponse<Ticket>,
    first_after: Store,
    second_steps: nat,
    second_page: PaginatedResponse<Ticket>,
    second_after: Store,
)
    requires
        second == (TicketQuery { limit: second.limit, offset: second.offset, ..first }),
        runs(
            TicketRepository::listing(first),
            |state: TicketListView, reply: Reply| state.next(reply),
            store,
            first_steps,
            Ok(first_page),
            first_after,
        ),
        runs(
            TicketRepository::listing(second),
            |state: TicketListView, reply: Reply| state.next(reply),
            store,
            second_steps,
            Ok(second_page),
            second_after,
        ),
    ensures
        first_page.total == second_page.total,
{
    law_page_holds_what_is_selected(store, first, first_steps, first_page, first_after);
    law_page_holds_what_is_selected(store, second, second_steps, second_page, second_after);
}

/// A filter with a status and a priority selects the tickets that the
/// filter with the status alone and the filter with the priority alone both
/// select.
pub proof fn law_criteria_intersect(
    store: Store,
    filter: FilterView,
    status: TicketStatus,
    priority: Priority,
)
    requires
        filter.status is None,
        filter.priority is None,
    ensures
        store.selected(
            FilterView { status: Some(status), priority: Some(priority), ..filter },
        ) == store.selected(FilterView { status: Some(status), ..filter }).intersect(
            store.selected(FilterView { priority: Some(priority), ..filter }),
        ),
{
    let both = FilterView { status: Some(status), priority: Some(priority), ..filter };
    let by_status = FilterView { status: Some(status), ..filter };
    let by_priority = FilterView { priority: Some(priority), ..filter };
    assert forall|id: Id| store.selected(both).contains(id) <==> (store.selected(
        by_status,
    ).contains(id) && store.selected(by_priority).contains(id)) by {
        if store.tickets.contains_key(id) {
            let t = store.tickets[id];
            assert(store.selects(both, t) <==> store.selects(by_status, t) && store.selects(
                by_priority,
                t,
            ));
        }
    }
    assert(store.selected(both) =~= store.selected(by_status).intersect(
        store.selected(by_priority),
    ));
}

/// The number of tickets on a page is the number asked for where that is at
/// most a hundred, a hundred where more is asked for, and twenty where
/// nothing is asked for.
pub proof fn law_limit_is_capped(limit: Option<i64>)
    ensures
        page_limit(limit) <= MAX_LIMIT,
        limit matches Some(n) ==> page_limit(limit) == (if n > MAX_LIMIT {
            MAX_LIMIT
        } else {
            n
        }),
        limit is None ==> page_limit(limit) == DEFAULT_LIMIT,
{
}

/// A tag cannot be given a name that another tag bears: the change ends
/// with a conflict, or with the failure of the store, and the store is left
/// as it was. A tag may keep its own name.
pub proof fn law_renaming_to_a_taken_name_is_a_conflict(
    store: Store,
    id: Id,
    request: UpdateTagRequest,
    now: Timestamp,
    steps: nat,
    result: Result<Tag, ErrorView>,
    after: Store,
)
    requires
        store.wf(),
        verdict(request.violations()) is Ok,
        request.name is Some,
        exists|other: Id| #[trigger]
            store.tags.contains_key(other) && other != id && store.tags[other].name@
                == request.name->0@,
        runs(
            updating_tag(id, request, now),
            |state: TagOp, reply: Reply| state.next(reply),
            store,
            steps,
            result,
            after,
        ),
    ensures
        result == Err::<Tag, ErrorView>(tag_name_taken()) || result matches Err(
            ErrorView::Database(_),
        ),
        after == store,
{
    reveal_with_fuel(runs, 2);
    let next = |state: TagOp, reply: Reply| state.next(reply);
    let name = request.name->0;
    let command = Command::CountTagsNamed { name: name@, exclude: Some(id) };
    let waiting = TagOp::UpdateChecking { id, name, color: request.color, now };
    let (r1, s1) = choose|r1: Reply, s1: Store| #[trigger]
        store.answers(command, r1, s1) && runs(
            next(waiting, r1),
            next,
            s1,
            (steps - 1) as nat,
            result,
            after,
        );
    let named = store.tags_named(name@, Some(id));
    let other = choose|other: Id| #[trigger]
        store.tags.contains_key(other) && other != id && store.tags[other].name@ == name@;
    assert(named.contains(other));
    assert(named.subset_of(store.tags.dom()));
    lemma_set_subset_finite(store.tags.dom(), named);
    if named.len() == 0 {
        named.lemma_len0_is_empty();
    }
}

/// What the removal of a tag leaves behind when it ends well: the tag is
/// gone and no ticket bears it; the tags and the other attachments are as
/// they were.
pub proof fn law_removed_tag_leaves_nothing(
    store: Store,
    id: Id,
    steps: nat,
    after: Store,
)
    requires
        runs(
            Plan::Ask(TagDelete::Detaching { id }, Command::DeleteTagLinks(id)),
            |state: TagDelete, reply: Reply| state.next(reply),
            store,
            steps,
            Ok(()),
            after,
        ),
    ensures
        store.tags.contains_key(id),
        after.tags == store.tags.remove(id),
        after.tickets_of(id) == Set::<Id>::empty(),
        forall|ticket_id: Id, tag_id: Id|
            tag_id != id ==> (after.links.contains((ticket_id, tag_id)) <==> store.links.contains(
                (ticket_id, tag_id),
            )),
{
    reveal_with_fuel(runs, 3);
    let next = |state: TagDelete, reply: Reply| state.next(reply);
    let (r1, s1) = choose|r1: Reply, s1: Store| #[trigger]
        store.answers(Command::DeleteTagLinks(id), r1, s1) && runs(
            next(TagDelete::Detaching { id }, r1),
            next,
            s1,
            (steps - 1) as nat,
            Ok(()),
            after,
        );
    assert(r1 is Affected);
    let (r2, s2) = choose|r2: Reply, s2: Store| #[trigger]
        s1.answers(Command::DeleteTag(id), r2, s2) && runs(
            next(TagDelete::Removing, r2),
            next,
            s2,
            (steps - 2) as nat,
            Ok(()),
            after,
        );
    assert(r2 is Affected);
    assert(after.tickets_of(id) =~= Set::<Id>::empty());
}

/// A change of a ticket that holds a status and nothing else writes the
/// status and the time of the change: the title, the description, the
/// priority and the people of the ticket stay as they were, and so do its
/// tags.
pub proof fn law_change_of_status_keeps_the_rest(
    store: Store,
    id: Id,
    request: UpdateTicketRequest,
    now: Timestamp,
    steps: nat,
    ticket: Ticket,
    after: Store,
)
    requires
        request.changes() == status_only(request.status->0),
        request.status is Some,
        request.tag_ids is None,
        runs(
            updating_ticket(id, request, now),
            |state: TicketOp, reply: Reply| state.next(reply),
            store,
            steps,
            Ok(ticket),
            after,
        ),
    ensures
        store.tickets.contains_key(id),
        ticket.status == request.status->0,
        ticket.title@ == store.tickets[id].title@,
        ticket.description == store.tickets[id].description,
        ticket.priority == store.tickets[id].priority,
        ticket.assignee_id == store.tickets[id].assignee_id,
        ticket.reporter_id == store.tickets[id].reporter_id,
        ticket.created_at == store.tickets[id].created_at,
        ticket.updated_at == now,
        after.tickets == store.tickets.insert(id, ticket),
        after.links == store.links,
{
    reveal_with_fuel(runs, 2);
    let next = |state: TicketOp, reply: Reply| state.next(reply);
    let waiting = TicketOp::Updating { id, tag_ids: request.tag_ids };
    let command = Command::UpdateTicket { id, changes: request.changes(), now };
    assert(request.changes_fields());
    assert(request.title is None);
    let (r1, s1) = choose|r1: Reply, s1: Store| #[trigger]
        store.answers(command, r1, s1) && runs(
            next(waiting, r1),
            next,
            s1,
            (steps - 1) as nat,
            Ok(ticket),
            after,
        );
}

/// The attachments of a ticket to each tag of a list.
pub open spec fn all_attachments(ticket_id: Id, tag_ids: Seq<Id>) -> Set<(Id, Id)> {
    Set::new(|link: (Id, Id)| link.0 == ticket_id && tag_ids.contains(link.1))
}

/// The store in which a ticket bears the tags of a list and no other, and
/// all else is as it was.
pub open spec fn with_tags_replaced(store: Store, ticket_id: Id, tag_ids: Seq<Id>) -> Store {
    Store {
        links: store.links.filter(|link: (Id, Id)| link.0 != ticket_id).union(
            all_attachments(ticket_id, tag_ids),
        ),
        ..store
    }
}

/// The replacement of the tags of a ticket by a new set, from the point on
/// where the tags of the set are looked up from a position on. When it ends
/// well, every tag of the set from that position on is there, the ticket
/// bears the tags of the set and no other, and the tags it ends with are
/// tags of the set. When it ends because a tag is not there, the store is as
/// it was.
pub proof fn lemma_tag_set_is_replaced(
    ticket_id: Id,
    tag_ids: Vec<Id>,
    from: usize,
    store: Store,
    steps: nat,
    result: Result<Vec<Tag>, ErrorView>,
    after: Store,
)
    requires
        runs(
            verify_from(ticket_id, tag_ids, from),
            |state: TicketTagsChange, reply: Reply| state.next(reply),
            store,
            steps,
            result,
            after,
        ),
    ensures
        result matches Ok(tags) ==> {
            &&& forall|i: int|
                from <= i < tag_ids@.len() ==> store.tags.contains_key(#[trigger] tag_ids@[i])
            &&& after == with_tags_replaced(store, ticket_id, tag_ids@)
            &&& forall|i: int|
                0 <= i < tags@.len() ==> tag_ids@.contains(#[trigger] tags@[i].id)
        },
        result == Err::<Vec<Tag>, ErrorView>(tag_not_found()) ==> after == store,
    decreases steps,
{
    reveal_with_fuel(runs, 4);
    let next = |state: TicketTagsChange, reply: Reply| state.next(reply);
    assert(tag_ids.len() == tag_ids@.len());
    if from < tag_ids@.len() {
        let waiting = TicketTagsChange::Verifying {
            ticket_id,
            tag_ids,
            next: (from + 1) as usize,
        };
        let command = Command::SelectTagById(tag_ids@[from as int]);
        let (r1, s1) = choose|r1: Reply, s1: Store| #[trigger]
            store.answers(command, r1, s1) && runs(
                next(waiting, r1),
                next,
                s1,
                (steps - 1) as nat,
                result,
                after,
            );
        match r1 {
            Reply::Tags(rows) => {
                if rows@.len() > 0 {
                    lemma_tag_set_is_replaced(
                        ticket_id,
                        tag_ids,
                        (from + 1) as usize,
                        s1,
                        (steps - 1) as nat,
                        result,
                        after,
                    );
                    assert(s1 == store);
                    assert(store.tags.contains_key(tag_ids@[from as int]));
                    if result is Ok {
                        assert forall|i: int| from <= i < tag_ids@.len() implies store.tags.contains_key(
                            #[trigger] tag_ids@[i],
                        ) by {
                            if i > from {
                                assert(from + 1 <= i);
                            }
                        }
                    }
                }
            },
            _ => {},
        }
    } else {
        let clearing = TicketTagsChange::Clearing { ticket_id, tag_ids };
        let (r1, s1) = choose|r1: Reply, s1: Store| #[trigger]
            store.answers(Command::DeleteTicketLinks(ticket_id), r1, s1) && runs(
                next(clearing, r1),
                next,
                s1,
                (steps - 1) as nat,
                result,
                after,
            );
        if r1 is Affected {
            let listing = Command::SelectTagsOfTicket(ticket_id);
            if tag_ids@.len() > 0 {
                let writing = TicketTagsChange::Writing { ticket_id };
                let attach = Command::AttachTags { ticket_id, tag_ids: tag_ids@ };
                let (r2, s2) = choose|r2: Reply, s2: Store| #[trigger]
                    s1.answers(attach, r2, s2) && runs(
                        next(writing, r2),
                        next,
                        s2,
                        (steps - 2) as nat,
                        result,
                        after,
                    );
                if r2 is Affected {
                    let (r3, s3) = choose|r3: Reply, s3: Store| #[trigger]
                        s2.answers(listing, r3, s3) && runs(
                            next(TicketTagsChange::Listing, r3),
                            next,
                            s3,
                            (steps - 3) as nat,
                            result,
                            after,
                        );
                    assert(s2.links =~= with_tags_replaced(store, ticket_id, tag_ids@).links);
                    assert(s2 == with_tags_replaced(store, ticket_id, tag_ids@));
                    if let Reply::Tags(rows) = r3 {
                        assert forall|i: int| 0 <= i < rows@.len() implies tag_ids@.contains(
                            #[trigger] rows@[i].id,
                        ) by {
                            assert(s2.tags_of(ticket_id).contains(rows@[i].id));
                        }
                    }
                }
            } else {
                let (r3, s3) = choose|r3: Reply, s3: Store| #[trigger]
                    s1.answers(listing, r3, s3) && runs(
                        next(TicketTagsChange::Listing, r3),
                        next,
                        s3,
                        (steps - 2) as nat,
                        result,
                        after,
                    );
                assert(all_attachments(ticket_id, tag_ids@) =~= Set::<(Id, Id)>::empty());
                assert(s1.links.union(Set::<(Id, Id)>::empty()) =~= s1.links);
                assert(s1.links =~= with_tags_replaced(store, ticket_id, tag_ids@).links);
                assert(s1 == with_tags_replaced(store, ticket_id, tag_ids@));
                if let Reply::Tags(rows) = r3 {
                    if rows@.len() > 0 {
                        assert(s1.tags_of(ticket_id).contains(rows@[0].id));
                    }
                }
            }
        }
    }
}

/// Setting the tags of a ticket replaces them all: when it ends well, every
/// tag of the new set is there, the ticket bears the tags of the set and no
/// other, and every other ticket bears the tags it bore. When it ends
/// because a tag of the set is not there, nothing has changed.
pub proof fn law_set_tags_replaces_all(
    store: Store,
    ticket_id: Id,
    tag_ids: Vec<Id>,
    steps: nat,
    result: Result<Vec<Tag>, ErrorView>,
    after: Store,
)
    requires
        runs(
            verify_from(ticket_id, tag_ids, 0),
            |state: TicketTagsChange, reply: Reply| state.next(reply),
            store,
            steps,
            result,
            after,
        ),
    ensures
        result is Ok ==> {
            &&& forall|i: int|
                0 <= i < tag_ids@.len() ==> store.tags.contains_key(#[trigger] tag_ids@[i])
            &&& after.tags_of(ticket_id) == tag_ids@.to_set()
            &&& forall|other: Id|
                other != ticket_id ==> #[trigger] after.tags_of(other) == store.tags_of(other)
        },
        result == Err::<Vec<Tag>, ErrorView>(tag_not_found()) ==> after == store,
{
    lemma_tag_set_is_replaced(ticket_id, tag_ids, 0, store, steps, result, after);
    if result is Ok {
        assert(after.tags_of(ticket_id) =~= tag_ids@.to_set());
        assert forall|other: Id| other != ticket_id implies #[trigger] after.tags_of(other)
            == store.tags_of(other) by {
            assert(after.tags_of(other) =~= store.tags_of(other));
        }
    }
}

/// Attaching one tag to a ticket, when it ends well, leaves the ticket with
/// that tag beside the tags it bore, and the tag was there. Attaching it
/// once more changes nothing.
pub proof fn law_adding_a_tag_is_idempotent(
    store: Store,
    ticket_id: Id,
    tag_id: Id,
    steps: nat,
    tags: Vec<Tag>,
    after: Store,
    more_steps: nat,
    more_tags: Vec<Tag>,
    again: Store,
)
    requires
        runs(
            Plan::Ask(
                TicketTagsChange::Checking { ticket_id, tag_id },
                Command::SelectTagById(tag_id),
            ),
            |state: TicketTagsChange, reply: Reply| state.next(reply),
            store,
            steps,
            Ok(tags),
            after,
        ),
        runs(
            Plan::Ask(
                TicketTagsChange::Checking { ticket_id, tag_id },
                Command::SelectTagById(tag_id),
            ),
            |state: TicketTagsChange, reply: Reply| state.next(reply),
            after,
            more_steps,
            Ok(more_tags),
            again,
        ),
    ensures
        store.tags.contains_key(tag_id),
        after == (Store { links: store.links.insert((ticket_id, tag_id)), ..store }),
        again == after,
{
    lemma_adding_a_tag(store, ticket_id, tag_id, steps, tags, after);
    lemma_adding_a_tag(after, ticket_id, tag_id, more_steps, more_tags, again);
    assert(store.links.insert((ticket_id, tag_id)).insert((ticket_id, tag_id))
        =~= store.links.insert((ticket_id, tag_id)));
}

proof fn lemma_adding_a_tag(
    store: Store,
    ticket_id: Id,
    tag_id: Id,
    steps: nat,
    tags: Vec<Tag>,
    after: Store,
)
    requires
        runs(
            Plan::Ask(
                TicketTagsChange::Checking { ticket_id, tag_id },
                Command::SelectTagById(tag_id),
            ),
            |state: TicketTagsChange, reply: Reply| state.next(reply),
            store,
            steps,
            Ok(tags),
            after,
        ),
    ensures
        store.tags.contains_key(tag_id),
        after == (Store { links: store.links.insert((ticket_id, tag_id)), ..store }),
{
    reveal_with_fuel(runs, 4);
    let next = |state: TicketTagsChange, reply: Reply| state.next(reply);
    let checking = TicketTagsChange::Checking { ticket_id, tag_id };
    let (r1, s1) = choose|r1: Reply, s1: Store| #[trigger]
        store.answers(Command::SelectTagById(tag_id), r1, s1) && runs(
            next(checking, r1),
            next,
            s1,
            (steps - 1) as nat,
            Ok(tags),
            after,
        );
    let (r2, s2) = choose|r2: Reply, s2: Store| #[trigger]
        s1.answers(Command::AttachTag { ticket_id, tag_id }, r2, s2) && runs(
            next(TicketTagsChange::Writing { ticket_id }, r2),
            next,
            s2,
            (steps - 2) as nat,
            Ok(tags),
            after,
        );
    let (r3, s3) = choose|r3: Reply, s3: Store| #[trigger]
        s2.answers(Command::SelectTagsOfTicket(ticket_id), r3, s3) && runs(
            next(TicketTagsChange::Listing, r3),
            next,
            s3,
            (steps - 3) as nat,
            Ok(tags),
            after,
        );
}

/// Taking one tag off a ticket, when it ends well, leaves the ticket
/// without that tag and with the other tags it bore. Taking it off once more
/// changes nothing.
pub proof fn law_removing_a_tag_is_idempotent(
    store: Store,
    ticket_id: Id,
    tag_id: Id,
    steps: nat,
    tags: Vec<Tag>,
    after: Store,
    more_steps: nat,
    more_tags: Vec<Tag>,
    again: Store,
)
    requires
        runs(
            Plan::Ask(
                TicketTagsChange::Writing { ticket_id },
                Command::DetachTag { ticket_id, tag_id },
            ),
            |state: TicketTagsChange, reply: Reply| state.next(reply),
            store,
            steps,
            Ok(tags),
            after,
        ),
        runs(
            Plan::Ask(
                TicketTagsChange::Writing { ticket_id },
                Command::DetachTag { ticket_id, tag_id },
            ),
            |state: TicketTagsChange, reply: Reply| state.next(reply),
            after,
            more_steps,
            Ok(more_tags),
            again,
        ),
    ensures
        after == (Store { links: store.links.remove((ticket_id, tag_id)), ..store }),
        again == after,
        forall|i: int| 0 <= i < tags@.len() ==> (#[trigger] tags@[i]).id != tag_id,
{
    lemma_removing_a_tag(store, ticket_id, tag_id, steps, tags, after);
    lemma_removing_a_tag(after, ticket_id, tag_id, more_steps, more_tags, again);
    assert(store.links.remove((ticket_id, tag_id)).remove((ticket_id, tag_id))
        =~= store.links.remove((ticket_id, tag_id)));
}

proof fn lemma_removing_a_tag(
    store: Store,
    ticket_id: Id,
    tag_id: Id,
    steps: nat,
    tags: Vec<Tag>,
    after: Store,
)
    requires
        runs(
            Plan::Ask(
                TicketTagsChange::Writing { ticket_id },
                Command::DetachTag { ticket_id, tag_id },
            ),
            |state: TicketTagsChange, reply: Reply| state.next(reply),
            store,
            steps,
            Ok(tags),
            after,
        ),
    ensures
        after == (Store { links: store.links.remove((ticket_id, tag_id)), ..store }),
        forall|i: int| 0 <= i < tags@.len() ==> (#[trigger] tags@[i]).id != tag_id,
{
    reveal_with_fuel(runs, 3);
    let next = |state: TicketTagsChange, reply: Reply| state.next(reply);
    let (r1, s1) = choose|r1: Reply, s1: Store| #[trigger]
        store.answers(Command::DetachTag { ticket_id, tag_id }, r1, s1) && runs(
            next(TicketTagsChange::Writing { ticket_id }, r1),
            next,
            s1,
            (steps - 1) as nat,
            Ok(tags),
            after,
        );
    let (r2, s2) = choose|r2: Reply, s2: Store| #[trigger]
        s1.answers(Command::SelectTagsOfTicket(ticket_id), r2, s2) && runs(
            next(TicketTagsChange::Listing, r2),
            next,
            s2,
            (steps - 2) as nat,
            Ok(tags),
            after,
        );
    assert forall|i: int| 0 <= i < tags@.len() implies (#[trigger] tags@[i]).id != tag_id by {
        assert(s1.tags_of(ticket_id).contains(tags@[i].id));
    }
}

/// Whatever the store answers, it stays in order: its relations stay
/// finite, each row stays under its own identifier, and no two tags come to
/// bear the same name.
pub proof fn law_answers_keep_the_store_in_order(
    store: Store,
    command: Command,
    reply: Reply,
    after: Store,
)
    requires
        store.wf(),
        store.answers(command, reply, after),
    ensures
        after.wf(),
{
    if !(reply is Failed) {
        lemma_kept_in_order(store, command, reply, after);
    }
}

proof fn lemma_kept_in_order(store: Store, command: Command, reply: Reply, after: Store)
    requires
        store.wf(),
        !(reply is Failed),
        store.answers(command, reply, after),
    ensures
        after.wf(),
{
    match command {
        Command::InsertTag { id, name, color, now } => {
            let row = reply->Tags_0@[0];
            assert forall|a: Id, b: Id|
                after.tags.contains_key(a) && after.tags.contains_key(b) && after.tags[a].name@
                    == after.tags[b].name@ implies a == b by {
                if a != b {
                    if a == id {
                        assert(store.tags_named(name, None).contains(b));
                    } else if b == id {
                        assert(store.tags_named(name, None).contains(a));
                    }
                }
            }
        },
        Command::UpdateTag { id, name, color, now } => {
            if store.tags.contains_key(id) {
                assert forall|a: Id, b: Id|
                    after.tags.contains_key(a) && after.tags.contains_key(b)
                        && after.tags[a].name@ == after.tags[b].name@ implies a == b by {
                    if a != b {
                        let other = if a == id {
                            b
                        } else {
                            a
                        };
                        if a == id || b == id {
                            match name {
                                Some(n) => {
                                    assert(store.tags_named(n, Some(id)).contains(other));
                                },
                                None => {
                                    assert(store.tags[id].name@ == store.tags[other].name@);
                                },
                            }
                        }
                    }
                }
            }
        },
        Command::DeleteTagLinks(tag_id) => {
            lemma_set_subset_finite(store.links, after.links);
        },
        Command::DeleteTicketLinks(ticket_id) => {
            lemma_set_subset_finite(store.links, after.links);
        },
        Command::AttachTags { ticket_id, tag_ids } => {
            let added = Set::new(
                |link: (Id, Id)| link.0 == ticket_id && tag_ids.contains(link.1),
            );
            let pair = |tag_id: Id| (ticket_id, tag_id);
            vstd::seq_lib::seq_to_set_is_finite(tag_ids);
            tag_ids.to_set().lemma_map_finite(pair);
            assert forall|link: (Id, Id)| added.contains(link) implies tag_ids.to_set().map(
                pair,
            ).contains(link) by {
                assert(tag_ids.to_set().contains(link.1));
                assert(pair(link.1) == link);
            }
            lemma_set_subset_finite(tag_ids.to_set().map(pair), added);
            assert(after.links =~= store.links.union(added));
        },
        Command::DeleteTicketComments(ticket_id) => {
            assert(after.comments.dom() =~= store.comments.dom().difference(
                store.comments_of(ticket_id),
            ));
        },
        _ => {},
    }
}

/// No value of a filter or of a page reaches the text of a statement: two
/// listings whose filters have the same shape and whose orders are the same
/// ask the store in the same words, whatever statuses, priorities, people,
/// tags and search terms they name and whatever pages they ask for. The
/// values travel as bound values, as many in the one statement as in the
/// other.
pub proof fn law_values_never_reach_the_text(first: ListingView, second: ListingView)
    requires
        same_shape(first.filter, second.filter),
        first.order == second.order,
    ensures
        count_tickets(first.filter).statement.sql == count_tickets(second.filter).statement.sql,
        select_page(first).statement.sql == select_page(second).statement.sql,
        count_tickets(first.filter).statement.params.len() == count_tickets(
            second.filter,
        ).statement.params.len(),
        select_page(first).statement.params.len() == select_page(second).statement.params.len(),
{
    lemma_shape_decides_the_text(
        StatementView::start(COUNT_TICKETS@),
        StatementView::start(COUNT_TICKETS@),
        first.filter,
        second.filter,
    );
    lemma_shape_decides_the_text(
        StatementView::start(SELECT_TICKETS@),
        StatementView::start(SELECT_TICKETS@),
        first.filter,
        second.filter,
    );
}

} // verus!
