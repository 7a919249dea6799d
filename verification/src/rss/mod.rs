//! The entities of an RSS 2.0 feed and the builders that make them.

pub mod category;
pub mod channel;
pub mod cloud;
pub mod enclosure;
pub mod guid;
pub mod image;
pub mod item_builder;
pub mod source;
pub mod text_input;

pub use category::{Category, CategoryBuilder, CategoryModel};
pub use channel::{Channel, ChannelBuilder, ChannelDraft, ChannelModel};
pub use cloud::{Cloud, CloudBuilder, CloudModel};
pub use enclosure::{Enclosure, EnclosureBuilder, EnclosureModel};
pub use guid::{Guid, GuidBuilder, GuidModel};
pub use image::{Image, ImageBuilder, ImageModel};
pub use item_builder::{Item, ItemBuilder, ItemDraft, ItemModel};
pub use source::{Source, SourceBuilder, SourceModel};
pub use text_input::{TextInput, TextInputBuilder, TextInputModel};
pub use crate::util::date::{DateTime, Instant};
