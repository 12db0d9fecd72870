//! What a server answers: the decisions of the request handlers, on plain values.
//! Sending the answer is left to the server.

use vstd::prelude::*;
use vstd::string::*;
use crate::error::AppError;
use crate::models::Meme;
use crate::service::{fetched_by_id, fetched_resized, Fetched, MemeService};
use crate::text::{decimal, push_decimal};

verus! {

/// The parameters of a request for a random asset.
#[derive(Debug, Clone, Copy, PartialEq, Eq, Structural)]
pub struct RandomMemeQuery {
    pub redirect: Option<bool>,
    pub width: Option<u32>,
    pub height: Option<u32>,
}

/// The parameters of a request for an asset by its identifier.
#[derive(Debug, Clone, Copy, PartialEq, Eq, Structural)]
pub struct GetMemeQuery {
    pub width: Option<u32>,
    pub height: Option<u32>,
}

/// An asset as the list of assets shows it.
#[derive(Debug, PartialEq, Eq)]
pub struct MemeListItem {
    pub id: u32,
    pub mime_type: String,
    pub filename: String,
    pub size_bytes: u64,
}

#[derive(Debug, Clone, Copy, PartialEq, Eq, Structural)]
pub struct MemeCount {
    pub count: usize,
}

/// An answer: the status, and where there are any, the media type of the body, the
/// address to go to, and the body.
#[derive(Debug, PartialEq, Eq)]
pub struct Reply {
    pub status: u16,
    pub content_type: Option<String>,
    pub location: Option<String>,
    pub body: Vec<u8>,
}

/// What is done with the asset that was picked at random.
#[derive(Debug, PartialEq, Eq)]
pub enum RandomPlan {
    /// The client is sent to the address of the asset.
    Redirect { location: String },
    /// The asset is served at the size asked for.
    Resized,
    /// The asset is served as it is.
    Original,
}

pub const STATUS_OK: u16 = 200;

pub const STATUS_FOUND: u16 = 302;

pub const STATUS_NOT_FOUND: u16 = 404;

pub const STATUS_SERVER_ERROR: u16 = 500;

/// Whether a size was asked for.
pub open spec fn asks_resize(width: Option<u32>, height: Option<u32>) -> bool {
    width is Some || height is Some
}

/// The parameters that an address carries for the size asked for: none, the width, the
/// height, or the width and then the height.
pub open spec fn size_query(width: Option<u32>, height: Option<u32>) -> Seq<char> {
    match (width, height) {
        (None, None) => Seq::<char>::empty(),
        (Some(w), None) => "?width="@ + decimal(w as nat),
        (None, Some(h)) => "?height="@ + decimal(h as nat),
        (Some(w), Some(h)) => "?width="@ + decimal(w as nat) + "&height="@ + decimal(h as nat),
    }
}

/// The address of the asset `id` at the size asked for.
pub open spec fn asset_location(id: u32, width: Option<u32>, height: Option<u32>) -> Seq<char> {
    "/memes/get/"@ + decimal(id as nat) + size_query(width, height)
}

/// The media type of every rendering.
pub open spec fn rendering_type() -> Seq<char> {
    "image/png"@
}

/// Whether a size was asked for.
pub fn wants_resize(width: Option<u32>, height: Option<u32>) -> (b: bool)
    ensures
        b == asks_resize(width, height),
{
    width.is_some() || height.is_some()
}

/// The address of the asset `id` at the size asked for.
pub fn location_of(id: u32, width: Option<u32>, height: Option<u32>) -> (location: String)
    ensures
        location@ == asset_location(id, width, height),
{
    let mut location = String::from_str("/memes/get/");
    push_decimal(&mut location, id as u64);
    let ghost head = location@;
    match (width, height) {
        (None, None) => {},
        (Some(w), None) => {
            location.append("?width=");
            push_decimal(&mut location, w as u64);
        },
        (None, Some(h)) => {
            location.append("?height=");
            push_decimal(&mut location, h as u64);
        },
        (Some(w), Some(h)) => {
            location.append("?width=");
            push_decimal(&mut location, w as u64);
            location.append("&height=");
            push_decimal(&mut location, h as u64);
        },
    }
    assert(location@ =~= head + size_query(width, height));
    location
}

impl RandomMemeQuery {
    /// What is done with the asset `id` that was picked: a redirect where one was asked
    /// for, else the asset at the size asked for, else the asset as it is.
    pub open spec fn plan_spec(self, id: u32) -> RandomPlanView {
        if self.redirect == Some(true) {
            RandomPlanView::Redirect { location: asset_location(id, self.width, self.height) }
        } else if asks_resize(self.width, self.height) {
            RandomPlanView::Resized
        } else {
            RandomPlanView::Original
        }
    }

    pub fn plan(&self, id: u32) -> (p: RandomPlan)
        ensures
            p@ == self.plan_spec(id),
    {
        let redirect = match self.redirect {
            Some(b) => b,
            None => false,
        };
        if redirect {
            RandomPlan::Redirect { location: location_of(id, self.width, self.height) }
        } else if wants_resize(self.width, self.height) {
            RandomPlan::Resized
        } else {
            RandomPlan::Original
        }
    }
}

/// A plan with its text as a sequence of characters.
pub enum RandomPlanView {
    Redirect { location: Seq<char> },
    Resized,
    Original,
}

impl View for RandomPlan {
    type V = RandomPlanView;

    open spec fn view(&self) -> RandomPlanView {
        match self {
            RandomPlan::Redirect { location } => RandomPlanView::Redirect { location: location@ },
            RandomPlan::Resized => RandomPlanView::Resized,
            RandomPlan::Original => RandomPlanView::Original,
        }
    }
}

impl Reply {
    /// The answer that sends the client to `location`.
    pub fn redirect(location: String) -> (r: Reply)
        ensures
            r.status == STATUS_FOUND,
            r.content_type is None,
            r.location == Some(location),
            r.body@.len() == 0,
    {
        Reply { status: STATUS_FOUND, content_type: None, location: Some(location), body: Vec::new() }
    }

    /// The answer that serves `content`: a rendering is PNG, an original has the media
    /// type of the asset.
    pub fn image(meme: &Meme, content: Vec<u8>, resized: bool) -> (r: Reply)
        ensures
            r.status == STATUS_OK,
            r.content_type matches Some(t) && t@ == (if resized {
                rendering_type()
            } else {
                meme.mime_type@
            }),
            r.location is None,
            r.body == content,
    {
        let content_type = if resized {
            String::from_str("image/png")
        } else {
            meme.mime_type.clone()
        };
        Reply { status: STATUS_OK, content_type: Some(content_type), location: None, body: content }
    }

    /// The answer with the status `status` and nothing else.
    pub fn empty(status: u16) -> (r: Reply)
        ensures
            r.status == status,
            r.content_type is None,
            r.location is None,
            r.body@.len() == 0,
    {
        Reply { status, content_type: None, location: None, body: Vec::new() }
    }

    /// The answer to a failed request for an asset by its identifier: not found for an
    /// unknown asset, a server error for everything else.
    pub fn failure_by_id(error: &AppError) -> (r: Reply)
        ensures
            r.status == (if error is NotFound {
                STATUS_NOT_FOUND
            } else {
                STATUS_SERVER_ERROR
            }),
            r.content_type is None,
            r.location is None,
            r.body@.len() == 0,
    {
        match error {
            AppError::NotFound(_) => Reply::empty(STATUS_NOT_FOUND),
            _ => Reply::empty(STATUS_SERVER_ERROR),
        }
    }

    /// The answer to a failed request for a random asset: a server error, whatever
    /// went wrong.
    pub fn failure_random() -> (r: Reply)
        ensures
            r.status == STATUS_SERVER_ERROR,
            r.content_type is None,
            r.location is None,
            r.body@.len() == 0,
    {
        Reply::empty(STATUS_SERVER_ERROR)
    }
}

impl MemeListItem {
    /// The entry of the list for `meme`.
    pub fn of(meme: &Meme) -> (item: MemeListItem)
        ensures
            item.id == meme.id,
            item.mime_type@ == meme.mime_type@,
            item.filename@ == meme.filename@,
            item.size_bytes == meme.size_bytes,
    {
        MemeListItem {
            id: meme.id,
            mime_type: meme.mime_type.clone(),
            filename: meme.filename.clone(),
            size_bytes: meme.size_bytes,
        }
    }
}

/// The list of all assets, by ascending identifier.
pub fn list_memes(service: &MemeService) -> (items: Vec<MemeListItem>)
    ensures
        items@.len() == service@.ids.len(),
        forall|i: int|
            0 <= i < items@.len() ==> {
                &&& (#[trigger] items@[i]).id == service@.ids[i]
                &&& items@[i].mime_type@ == service@.assets[service@.ids[i]].mime_type
                &&& items@[i].filename@ == service@.assets[service@.ids[i]].filename
                &&& items@[i].size_bytes == service@.assets[service@.ids[i]].size_bytes
            },
        forall|i: int, j: int| 0 <= i < j < items@.len() ==> items@[i].id < items@[j].id,
{
    let memes = service.get_all_memes();
    let mut items: Vec<MemeListItem> = Vec::new();
    let mut i: usize = 0;
    while i < memes.len()
        invariant
            i <= memes@.len(),
            items@.len() == i,
            memes@.len() == service@.ids.len(),
            forall|k: int|
                0 <= k < memes@.len() ==> (#[trigger] memes@[k]).id == service@.ids[k] && memes@[k]@
                    == service@.assets[service@.ids[k]],
            forall|k: int|
                0 <= k < i ==> {
                    &&& (#[trigger] items@[k]).id == memes@[k].id
                    &&& items@[k].mime_type@ == memes@[k].mime_type@
                    &&& items@[k].filename@ == memes@[k].filename@
                    &&& items@[k].size_bytes == memes@[k].size_bytes
                },
        decreases memes@.len() - i,
    {
        items.push(MemeListItem::of(memes[i]));
        i += 1;
    }
    proof {
        assert forall|a: int, b: int| 0 <= a < b < items@.len() implies items@[a].id
            < items@[b].id by {
            assert(items@[a].id == memes@[a].id);
            assert(items@[b].id == memes@[b].id);
        }
    }
    items
}

/// Asks the service for the asset `id` as the request wants it: at the size asked for
/// where there is one, else as it is.
pub fn get_meme_by_id(service: &mut MemeService, id: u32, query: &GetMemeQuery) -> (r: Result<
    Fetched,
    AppError,
>)
    ensures
        r is Ok <==> old(service)@.assets.contains_key(id),
        r matches Ok(f) ==> f.subject().id == id,
        fetched_resized(
            old(service)@,
            final(service)@,
            id,
            query.width,
            query.height,
            final(service)@.stamps.last(),
            r,
        ),
        !asks_resize(query.width, query.height) ==> fetched_by_id(
            old(service)@,
            final(service)@,
            id,
            final(service)@.stamps.last(),
            r,
        ),
{
    if wants_resize(query.width, query.height) {
        service.get_resized_image(id, query.width, query.height)
    } else {
        service.get_by_id(id)
    }
}

/// Asks the service for an asset picked at random, and says what the request wants
/// done with it.
pub fn random_meme(service: &mut MemeService, query: &RandomMemeQuery) -> (r: Result<
    (Fetched, RandomPlan),
    AppError,
>)
    ensures
        r is Ok <==> old(service)@.ids.len() > 0,
        r matches Ok(picked) ==> {
            &&& old(service)@.ids.contains(picked.0.subject().id)
            &&& fetched_by_id(
                old(service)@,
                final(service)@,
                picked.0.subject().id,
                final(service)@.stamps.last(),
                Ok(picked.0),
            )
            &&& picked.1@ == query.plan_spec(picked.0.subject().id)
        },
        r matches Err(e) ==> e matches AppError::NotFound(m) && m@ == "No memes available"@,
{
    match service.get_random() {
        Ok(fetched) => {
            let plan = query.plan(fetched.meme().id);
            Ok((fetched, plan))
        },
        Err(e) => Err(e),
    }
}

/// The number of assets.
pub fn get_meme_count(service: &MemeService) -> (c: MemeCount)
    ensures
        c.count == service@.ids.len(),
{
    MemeCount { count: service.get_total_memes() }
}

} // verus!
