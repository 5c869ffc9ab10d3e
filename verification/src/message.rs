//! A2UI v0.9 server-to-client message envelopes.
//!
//! On the wire each message is an object with a `version` field and exactly
//! one of the keys `createSurface`, `updateComponents`, `updateDataModel`,
//! `deleteSurface`.
use vstd::prelude::*;
use vstd::string::StringExecFns;

use crate::catalog::{views, Component, ComponentView};
use crate::surface::{entry_values, Surface};

verus! {

/// The protocol version carried by every v0.9 message.
pub const VERSION: &'static str = "v0.9";

/// The id of the Elmethis block catalog.
pub const BLOCK_CATALOG_ID: &'static str = "https://46ki75.github.io/elmethis/a2ui/v0_9/block_catalog.json";

/// The id of the Elmethis Notion block catalog.
pub const NOTION_BLOCK_CATALOG_ID: &'static str =
    "https://46ki75.github.io/elmethis/a2ui/v0_9/notion_block_catalog.json";

/// `createSurface`: creates a surface and binds it to a catalog and a theme.
#[derive(Debug, PartialEq)]
pub struct CreateSurface {
    pub surface_id: String,
    pub catalog_id: String,
    pub theme: Option<serde_json::Value>,
    pub send_data_model: Option<bool>,
}

/// `updateComponents`: adds or replaces components of a surface, by id.
#[derive(Debug, PartialEq)]
pub struct UpdateComponents {
    pub surface_id: String,
    pub components: Vec<Component>,
}

/// `updateDataModel`: sets, or removes when `value` is absent, the value at a
/// JSON-Pointer path; without a path, the whole model.
#[derive(Debug, PartialEq)]
pub struct UpdateDataModel {
    pub surface_id: String,
    pub path: Option<String>,
    pub value: Option<serde_json::Value>,
}

/// `deleteSurface`: removes a surface and all its state.
#[derive(Debug, PartialEq)]
pub struct DeleteSurface {
    pub surface_id: String,
}

/// The body of a message.
#[derive(Debug, PartialEq)]
pub enum MessageBody {
    CreateSurface(CreateSurface),
    UpdateComponents(UpdateComponents),
    UpdateDataModel(UpdateDataModel),
    DeleteSurface(DeleteSurface),
}

/// A message envelope: a version and a body.
#[derive(Debug, PartialEq)]
pub struct Message {
    pub version: String,
    pub body: MessageBody,
}

/// The view of a message body; themes and data-model values are carried
/// unchanged and only their presence is viewed.
pub enum MessageBodyView {
    CreateSurface {
        surface_id: Seq<char>,
        catalog_id: Seq<char>,
        has_theme: bool,
        send_data_model: Option<bool>,
    },
    UpdateComponents { surface_id: Seq<char>, components: Seq<ComponentView> },
    UpdateDataModel { surface_id: Seq<char>, path: Option<Seq<char>>, has_value: bool },
    DeleteSurface { surface_id: Seq<char> },
}

pub struct MessageView {
    pub version: Seq<char>,
    pub body: MessageBodyView,
}

impl View for MessageBody {
    type V = MessageBodyView;

    open spec fn view(&self) -> MessageBodyView {
        match self {
            MessageBody::CreateSurface(c) => MessageBodyView::CreateSurface {
                surface_id: c.surface_id@,
                catalog_id: c.catalog_id@,
                has_theme: c.theme is Some,
                send_data_model: c.send_data_model,
            },
            MessageBody::UpdateComponents(u) => MessageBodyView::UpdateComponents {
                surface_id: u.surface_id@,
                components: views(u.components@),
            },
            MessageBody::UpdateDataModel(u) => MessageBodyView::UpdateDataModel {
                surface_id: u.surface_id@,
                path: match u.path {
                    Some(p) => Some(p@),
                    None => None,
                },
                has_value: u.value is Some,
            },
            MessageBody::DeleteSurface(d) => MessageBodyView::DeleteSurface {
                surface_id: d.surface_id@,
            },
        }
    }
}

impl View for Message {
    type V = MessageView;

    open spec fn view(&self) -> MessageView {
        MessageView { version: self.version@, body: self.body@ }
    }
}

/// The view of `VERSION`.
pub open spec fn version() -> Seq<char> {
    seq!['v', '0', '.', '9']
}

/// A `createSurface` message without a theme.
pub open spec fn spec_create_surface(surface_id: Seq<char>, catalog_id: Seq<char>) -> MessageView {
    MessageView {
        version: version(),
        body: MessageBodyView::CreateSurface {
            surface_id,
            catalog_id,
            has_theme: false,
            send_data_model: None,
        },
    }
}

/// An `updateComponents` message.
pub open spec fn spec_update_components(surface_id: Seq<char>, components: Seq<ComponentView>) -> MessageView {
    MessageView { version: version(), body: MessageBodyView::UpdateComponents { surface_id, components } }
}

/// The version string, as a `String`.
pub fn version_string() -> (r: String)
    ensures
        r@ == version(),
{
    proof {
        reveal_strlit("v0.9");
    }
    String::from_str(VERSION)
}

impl Message {
    /// Wraps a body in a `v0.9` envelope.
    pub fn new(body: MessageBody) -> (r: Self)
        ensures
            r@.version == version(),
            r.body == body,
            r@.body == body@,
    {
        Message { version: version_string(), body }
    }
}

impl Surface {
    /// Renders this surface as a v0.9 message sequence: a `createSurface`
    /// that binds the catalog, then one `updateComponents` that carries every
    /// component in insertion order.
    pub fn to_messages(&self, surface_id: String, catalog_id: String) -> (r: Vec<Message>)
        ensures
            r@.len() == 2,
            r@[0]@ == spec_create_surface(surface_id@, catalog_id@),
            r@[1]@ == spec_update_components(surface_id@, entry_values(self@.components)),
    {
        let create = Message::new(
            MessageBody::CreateSurface(
                CreateSurface {
                    surface_id: surface_id.clone(),
                    catalog_id,
                    theme: None,
                    send_data_model: None,
                },
            ),
        );
        let update = Message::new(
            MessageBody::UpdateComponents(
                UpdateComponents { surface_id, components: self.component_list() },
            ),
        );
        let mut out: Vec<Message> = Vec::new();
        out.push(create);
        out.push(update);
        out
    }
}

} // verus!
