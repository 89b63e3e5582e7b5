//! The navigation and location builder: composes the coordinate mapper and
//! the identity resolver into single-location and location-link responses,
//! including the degradation for clients that cannot take links.

use vstd::prelude::*;

use crate::edits::{pos_range_of, range_to_pos_range};
use crate::kinds;
use crate::line_index::LineIndex;
use crate::protocol::{
    CallHierarchyItem, GotoDefinitionResponse, Location, LocationLink, PosRange,
};
use crate::text::TextRange;
use crate::world::WorldSnapshot;
use crate::ConvError;

verus! {

/// A place the engine points at: a file, the construct's full extent, and
/// optionally the narrower span to put the cursor on.
#[derive(Debug)]
pub struct NavigationTarget {
    pub file_id: u32,
    pub full_range: TextRange,
    pub focus_range: Option<TextRange>,
    pub name: String,
    pub kind: kinds::SyntaxKind,
    pub description: Option<String>,
}

/// A payload together with the range of the request site it answers.
#[derive(Debug)]
pub struct RangeInfo<T> {
    pub range: TextRange,
    pub info: T,
}

/// The target's ranges lie inside its file's document whenever the
/// snapshot knows the file.
pub open spec fn target_ranges_in_bounds(w: &WorldSnapshot, nav: NavigationTarget) -> bool {
    w.spec_has_file(nav.file_id) ==> {
        &&& nav.full_range.in_bounds(w.spec_doc_of(nav.file_id).len() as int)
        &&& match nav.focus_range {
            Some(fr) => fr.in_bounds(w.spec_doc_of(nav.file_id).len() as int),
            None => true,
        }
    }
}

/// The selection range a link carries for a target: the focus range when
/// there is one, the full range otherwise.
pub open spec fn spec_target_selection_range(w: &WorldSnapshot, nav: NavigationTarget)
    -> PosRange {
    match nav.focus_range {
        Some(fr) => pos_range_of(w.spec_doc_of(nav.file_id), fr),
        None => pos_range_of(w.spec_doc_of(nav.file_id), nav.full_range),
    }
}

/// `l` is the location link for `nav`, requested from `src_range` of file
/// `src_id`.
pub open spec fn link_matches(
    w: &WorldSnapshot,
    src_id: u32,
    src_range: TextRange,
    nav: NavigationTarget,
    l: LocationLink,
) -> bool {
    &&& l.origin_selection_range == Some(pos_range_of(w.spec_doc_of(src_id), src_range))
    &&& l.target_uri@ == w.spec_uri_of(nav.file_id)
    &&& l.target_range == pos_range_of(w.spec_doc_of(nav.file_id), nav.full_range)
    &&& l.target_selection_range == spec_target_selection_range(w, nav)
}

/// Build a location from a file handle and a range over that file's
/// document.
pub fn to_location(
    file_id: u32,
    range: TextRange,
    world: &WorldSnapshot,
    line_index: &LineIndex,
) -> (r: Result<Location, ConvError>)
    requires
        world.wf(),
        line_index.wf(),
        range.in_bounds(line_index@.len() as int),
    ensures
        r is Ok <==> world.spec_has_file(file_id),
        match r {
            Ok(loc) => {
                &&& loc.uri@ == world.spec_uri_of(file_id)
                &&& loc.range == pos_range_of(line_index@, range)
            },
            Err(e) => e == ConvError::UnknownFile,
        },
{
    let uri = match world.file_id_to_uri(file_id) {
        Ok(u) => u,
        Err(e) => {
            return Err(e);
        },
    };
    let range = range_to_pos_range(line_index, range);
    Ok(Location { uri, range })
}

/// The location of a navigation target: its file's locator and its full
/// range.
pub fn navigation_target_to_location(nav: &NavigationTarget, world: &WorldSnapshot) -> (r: Result<
    Location,
    ConvError,
>)
    requires
        world.wf(),
        target_ranges_in_bounds(world, *nav),
    ensures
        r is Ok <==> world.spec_has_file(nav.file_id),
        match r {
            Ok(loc) => {
                &&& loc.uri@ == world.spec_uri_of(nav.file_id)
                &&& loc.range == pos_range_of(world.spec_doc_of(nav.file_id), nav.full_range)
            },
            Err(e) => e == ConvError::UnknownFile,
        },
{
    let index = match world.file_line_index(nav.file_id) {
        Ok(ix) => ix,
        Err(e) => {
            return Err(e);
        },
    };
    to_location(nav.file_id, nav.full_range, world, index)
}

/// Build the location link for one navigation target: the origin selection
/// range from the request site, the target's full range, and the target's
/// selection range from its focus range when it has one.
pub fn to_location_link(
    world: &WorldSnapshot,
    src_file_id: u32,
    target: &RangeInfo<NavigationTarget>,
) -> (r: Result<LocationLink, ConvError>)
    requires
        world.wf(),
        target_ranges_in_bounds(world, target.info),
        world.spec_has_file(src_file_id) ==> target.range.in_bounds(
            world.spec_doc_of(src_file_id).len() as int),
    ensures
        r is Ok <==> world.spec_has_file(target.info.file_id) && world.spec_has_file(src_file_id),
        match r {
            Ok(l) => link_matches(world, src_file_id, target.range, target.info, l),
            Err(e) => e == ConvError::UnknownFile,
        },
{
    let target_uri = match world.file_id_to_uri(target.info.file_id) {
        Ok(u) => u,
        Err(e) => {
            return Err(e);
        },
    };
    let src_index = match world.file_line_index(src_file_id) {
        Ok(ix) => ix,
        Err(e) => {
            return Err(e);
        },
    };
    let tgt_index = match world.file_line_index(target.info.file_id) {
        Ok(ix) => ix,
        Err(e) => {
            return Err(e);
        },
    };
    let target_range = range_to_pos_range(tgt_index, target.info.full_range);
    let target_selection_range = match target.info.focus_range {
        Some(fr) => range_to_pos_range(tgt_index, fr),
        None => target_range,
    };
    Ok(LocationLink {
        origin_selection_range: Some(range_to_pos_range(src_index, target.range)),
        target_uri,
        target_range,
        target_selection_range,
    })
}

/// Build the response to a definition-style request: location links for a
/// link-capable client; for any other client each link degrades to a plain
/// location made of the link's target locator and target selection range —
/// never the full range.
pub fn to_goto_definition_response(
    world: &WorldSnapshot,
    src_file_id: u32,
    range: TextRange,
    navs: &Vec<NavigationTarget>,
) -> (r: Result<GotoDefinitionResponse, ConvError>)
    requires
        world.wf(),
        forall|i: int|
            0 <= i < navs@.len() ==> target_ranges_in_bounds(world, #[trigger] navs@[i]),
        world.spec_has_file(src_file_id) ==> range.in_bounds(
            world.spec_doc_of(src_file_id).len() as int),
    ensures
        r is Ok <==> (forall|i: int|
            0 <= i < navs@.len() ==> world.spec_has_file((#[trigger] navs@[i]).file_id))
            && (navs@.len() > 0 ==> world.spec_has_file(src_file_id)),
        match r {
            Ok(resp) => match resp {
                GotoDefinitionResponse::Link(ls) => {
                    &&& world.location_link_capable
                    &&& ls@.len() == navs@.len()
                    &&& forall|i: int|
                        0 <= i < navs@.len() ==> link_matches(world, src_file_id, range,
                            navs@[i], #[trigger] ls@[i])
                },
                GotoDefinitionResponse::Array(locs) => {
                    &&& !world.location_link_capable
                    &&& locs@.len() == navs@.len()
                    &&& forall|i: int|
                        0 <= i < navs@.len() ==> (#[trigger] locs@[i]).uri@
                            == world.spec_uri_of(navs@[i].file_id) && locs@[i].range
                            == spec_target_selection_range(world, navs@[i])
                },
                GotoDefinitionResponse::Scalar(_) => false,
            },
            Err(e) => e == ConvError::UnknownFile,
        },
{
    let mut links: Vec<LocationLink> = Vec::new();
    let mut i: usize = 0;
    while i < navs.len()
        invariant
            i <= navs@.len(),
            world.wf(),
            forall|k: int|
                0 <= k < navs@.len() ==> target_ranges_in_bounds(world, #[trigger] navs@[k]),
            world.spec_has_file(src_file_id) ==> range.in_bounds(
                world.spec_doc_of(src_file_id).len() as int),
            links@.len() == i,
            forall|k: int|
                0 <= k < i ==> link_matches(world, src_file_id, range, navs@[k],
                    #[trigger] links@[k]),
            forall|k: int| 0 <= k < i ==> world.spec_has_file((#[trigger] navs@[k]).file_id),
            i > 0 ==> world.spec_has_file(src_file_id),
        decreases navs@.len() - i,
    {
        let nav_full = NavigationTarget {
            file_id: navs[i].file_id,
            full_range: navs[i].full_range,
            focus_range: navs[i].focus_range,
            name: navs[i].name.clone(),
            kind: navs[i].kind,
            description: match &navs[i].description {
                Some(d) => Some(d.clone()),
                None => None,
            },
        };
        proof {
            assert(nav_full.file_id == navs@[i as int].file_id);
        }
        let target = RangeInfo { range, info: nav_full };
        let link = match to_location_link(world, src_file_id, &target) {
            Ok(l) => l,
            Err(e) => {
                return Err(e);
            },
        };
        proof {
            assert(link_matches(world, src_file_id, range, navs@[i as int], link));
        }
        links.push(link);
        i = i + 1;
    }
    if world.location_link_capable {
        Ok(GotoDefinitionResponse::Link(links))
    } else {
        let mut locs: Vec<Location> = Vec::new();
        let mut j: usize = 0;
        while j < links.len()
            invariant
                j <= links@.len(),
                links@.len() == navs@.len(),
                forall|k: int|
                    0 <= k < navs@.len() ==> link_matches(world, src_file_id, range, navs@[k],
                        #[trigger] links@[k]),
                locs@.len() == j,
                forall|k: int|
                    0 <= k < j ==> (#[trigger] locs@[k]).uri@ == links@[k].target_uri@
                        && locs@[k].range == links@[k].target_selection_range,
            decreases links@.len() - j,
        {
            locs.push(Location {
                uri: links[j].target_uri.clone(),
                range: links[j].target_selection_range,
            });
            j = j + 1;
        }
        Ok(GotoDefinitionResponse::Array(locs))
    }
}

/// Build a call-hierarchy entry for a navigation target: named and
/// classified from the target, located at the target's full range, with
/// the given range as its selection.
pub fn to_call_hierarchy_item(
    file_id: u32,
    range: TextRange,
    world: &WorldSnapshot,
    line_index: &LineIndex,
    nav: &NavigationTarget,
) -> (r: Result<CallHierarchyItem, ConvError>)
    requires
        world.wf(),
        line_index.wf(),
        range.in_bounds(line_index@.len() as int),
        nav.full_range.in_bounds(line_index@.len() as int),
    ensures
        r is Ok <==> world.spec_has_file(file_id),
        match r {
            Ok(item) => {
                &&& item.name == nav.name
                &&& item.kind == kinds::symbol_kind_of(nav.kind)
                &&& item.detail == nav.description
                &&& item.uri@ == world.spec_uri_of(file_id)
                &&& item.range == pos_range_of(line_index@, nav.full_range)
                &&& item.selection_range == pos_range_of(line_index@, range)
            },
            Err(e) => e == ConvError::UnknownFile,
        },
{
    let uri = match world.file_id_to_uri(file_id) {
        Ok(u) => u,
        Err(e) => {
            return Err(e);
        },
    };
    Ok(CallHierarchyItem {
        name: nav.name.clone(),
        kind: kinds::to_symbol_kind(nav.kind),
        detail: match &nav.description {
            Some(d) => Some(d.clone()),
            None => None,
        },
        uri,
        range: range_to_pos_range(line_index, nav.full_range),
        selection_range: range_to_pos_range(line_index, range),
    })
}

} // verus!
