use std::collections::VecDeque;
use vstd::prelude::*;
use crate::archive::{
    ArchiveEntry, ArchiveEntryView, ends_with_slash, entries_of, names_directory,
};
use crate::effect::{Request, RequestView};
use crate::paths::{join, joined, parent, parent_of, text_of};
use crate::plan::requests_of;
use crate::platform::Platform;

verus! {

/// The requests that put one archive entry at `out`, whose directory is `parent`: a
/// directory is created; a file has its directory created and is then written in
/// full. After that the entry's permission bits, if it has any, are set, on a
/// platform that has them.
pub open spec fn placed(
    platform: Platform,
    directory: bool,
    out: Seq<char>,
    parent: Option<Seq<char>>,
    unix_mode: Option<u32>,
    content: Seq<u8>,
) -> Seq<RequestView> {
    let made = if directory {
        seq![RequestView::CreateDirAll { path: out }]
    } else {
        let above = match parent {
            Some(dir) => seq![RequestView::CreateDirAll { path: dir }],
            None => Seq::empty(),
        };
        above + seq![RequestView::WriteFile { path: out, content }]
    };
    match unix_mode {
        Some(mode) => if platform.has_permissions() {
            made + seq![RequestView::SetPermissions { path: out, mode }]
        } else {
            made
        },
        None => made,
    }
}

/// The requests that unpack `entry` below `destination`: none for an entry whose name
/// is no safe relative path, else those that put it at its name inside `destination`.
pub open spec fn entry_plan(platform: Platform, destination: Seq<char>, entry: ArchiveEntryView) -> Seq<
    RequestView,
> {
    match entry.enclosed_name {
        None => Seq::empty(),
        Some(inner) => {
            let out = joined(destination, inner);
            placed(
                platform,
                names_directory(entry.name),
                out,
                parent_of(out),
                entry.unix_mode,
                entry.content,
            )
        },
    }
}

/// The requests that unpack `entries` below `destination`, entry after entry.
pub open spec fn extraction(
    platform: Platform,
    destination: Seq<char>,
    entries: Seq<ArchiveEntryView>,
) -> Seq<RequestView>
    decreases entries.len(),
{
    if entries.len() == 0 {
        Seq::empty()
    } else {
        extraction(platform, destination, entries.drop_last()) + entry_plan(
            platform,
            destination,
            entries.last(),
        )
    }
}

proof fn lemma_pushed(requests: Seq<Request>, request: Request)
    ensures
        requests_of(requests.push(request)) == requests_of(requests).push(request@),
{
    assert(requests_of(requests.push(request)) =~= requests_of(requests).push(request@));
}

/// Appends to `plan` the requests that put one archive entry at `out`, whose directory
/// is `parent`.
pub fn place(
    plan: &mut VecDeque<Request>,
    platform: Platform,
    directory: bool,
    out: String,
    parent: Option<String>,
    unix_mode: Option<u32>,
    content: Vec<u8>,
)
    ensures
        requests_of(final(plan)@) == requests_of(old(plan)@) + placed(
            platform,
            directory,
            out@,
            text_of(parent),
            unix_mode,
            content@,
        ),
{
    let ghost before = requests_of(plan@);
    let ghost wanted = placed(platform, directory, out@, text_of(parent), unix_mode, content@);
    let for_mode = match unix_mode {
        Some(mode) => if platform.supports_permissions() {
            Some(Request::SetPermissions { path: out.clone(), mode })
        } else {
            None
        },
        None => None,
    };
    if directory {
        proof {
            lemma_pushed(plan@, Request::CreateDirAll { path: out });
        }
        plan.push_back(Request::CreateDirAll { path: out });
    } else {
        match parent {
            Some(dir) => {
                proof {
                    lemma_pushed(plan@, Request::CreateDirAll { path: dir });
                }
                plan.push_back(Request::CreateDirAll { path: dir });
            },
            None => {},
        }
        proof {
            lemma_pushed(plan@, Request::WriteFile { path: out, content });
        }
        plan.push_back(Request::WriteFile { path: out, content });
    }
    match for_mode {
        Some(request) => {
            proof {
                lemma_pushed(plan@, request);
            }
            plan.push_back(request);
        },
        None => {},
    }
    assert(requests_of(plan@) =~= before + wanted);
}

/// The requests that unpack `entries` below `destination`, entry after entry. An
/// entry whose name is no safe relative path is passed over.
pub fn extraction_plan(platform: Platform, destination: &str, entries: Vec<ArchiveEntry>) -> (plan:
    VecDeque<Request>)
    ensures
        requests_of(plan@) == extraction(platform, destination@, entries_of(entries@)),
{
    let mut plan: VecDeque<Request> = VecDeque::new();
    let ghost all = entries@;
    assert(requests_of(plan@) =~= Seq::<RequestView>::empty());
    assert(entries_of(all.take(0)) =~= Seq::<ArchiveEntryView>::empty());
    for entry in it: entries
        invariant
            it.seq() == all,
            requests_of(plan@) == extraction(
                platform,
                destination@,
                entries_of(all.take(it.index())),
            ),
    {
        let ghost done = entries_of(all.take(it.index()));
        let ghost more = entries_of(all.take(it.index() + 1));
        assert(more.drop_last() =~= done);
        assert(more.last() == entry@);
        let ArchiveEntry { name, enclosed_name, unix_mode, content } = entry;
        match enclosed_name {
            None => {
                assert(requests_of(plan@) + Seq::<RequestView>::empty() =~= requests_of(plan@));
            },
            Some(inner) => {
                let out = join(destination, inner.as_str());
                let above = parent(out.as_str());
                let directory = ends_with_slash(name.as_str());
                place(&mut plan, platform, directory, out, above, unix_mode, content);
            },
        }
    }
    assert(all.take(all.len() as int) =~= all);
    plan
}

proof fn lemma_extraction_holds_entry(
    platform: Platform,
    destination: Seq<char>,
    entries: Seq<ArchiveEntryView>,
    i: int,
)
    requires
        0 <= i < entries.len(),
    ensures
        exists|offset: int|
            0 <= offset && offset + entry_plan(platform, destination, entries[i]).len()
                <= extraction(platform, destination, entries).len() && #[trigger] extraction(
                platform,
                destination,
                entries,
            ).subrange(offset, offset + entry_plan(platform, destination, entries[i]).len())
                == entry_plan(platform, destination, entries[i]),
    decreases entries.len(),
{
    let whole = extraction(platform, destination, entries);
    let before = extraction(platform, destination, entries.drop_last());
    let wanted = entry_plan(platform, destination, entries[i]);
    if i == entries.len() - 1 {
        let offset = before.len() as int;
        assert(whole.subrange(offset, offset + wanted.len()) =~= wanted);
    } else {
        lemma_extraction_holds_entry(platform, destination, entries.drop_last(), i);
        let offset = choose|offset: int|
            0 <= offset && offset + wanted.len() <= before.len() && #[trigger] before.subrange(
                offset,
                offset + wanted.len(),
            ) == wanted;
        assert(whole.subrange(offset, offset + wanted.len()) =~= before.subrange(
            offset,
            offset + wanted.len(),
        ));
    }
}

/// Unpacking keeps the permission bits that the archive stores. On a platform with
/// permission bits, for every entry of the archive that has a safe name and stored
/// bits, the requests of the unpacking hold, one after the other, the request that
/// creates the entry at its place and the request that sets exactly those bits there.
pub proof fn law_unzip_keeps_modes(
    platform: Platform,
    destination: Seq<char>,
    entries: Seq<ArchiveEntryView>,
    i: int,
)
    requires
        platform.has_permissions(),
        0 <= i < entries.len(),
        entries[i].enclosed_name is Some,
        entries[i].unix_mode is Some,
    ensures
        ({
            let out = joined(destination, entries[i].enclosed_name->0);
            let plan = extraction(platform, destination, entries);
            exists|k: int|
                1 <= k < plan.len() && #[trigger] plan[k] == (RequestView::SetPermissions {
                    path: out,
                    mode: entries[i].unix_mode->0,
                }) && plan[k - 1] == (if names_directory(entries[i].name) {
                    RequestView::CreateDirAll { path: out }
                } else {
                    RequestView::WriteFile { path: out, content: entries[i].content }
                })
        }),
{
    lemma_extraction_holds_entry(platform, destination, entries, i);
    let plan = extraction(platform, destination, entries);
    let wanted = entry_plan(platform, destination, entries[i]);
    let offset = choose|offset: int|
        0 <= offset && offset + wanted.len() <= plan.len() && #[trigger] plan.subrange(
            offset,
            offset + wanted.len(),
        ) == wanted;
    let k = offset + wanted.len() - 1;
    assert(plan[k] == plan.subrange(offset, offset + wanted.len())[wanted.len() - 1]);
    assert(plan[k - 1] == plan.subrange(offset, offset + wanted.len())[wanted.len() - 2]);
}

/// On a platform without permission bits unpacking asks for none to be set, whatever
/// the archive stores.
pub proof fn law_unzip_without_modes(
    platform: Platform,
    destination: Seq<char>,
    entries: Seq<ArchiveEntryView>,
)
    requires
        !platform.has_permissions(),
    ensures
        forall|k: int|
            0 <= k < extraction(platform, destination, entries).len() ==> !(#[trigger] extraction(
                platform,
                destination,
                entries,
            )[k] is SetPermissions),
    decreases entries.len(),
{
    if entries.len() > 0 {
        law_unzip_without_modes(platform, destination, entries.drop_last());
    }
}

} // verus!
