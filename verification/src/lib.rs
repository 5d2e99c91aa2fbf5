//! Parses Little Fighter 2 (LF2) object data files into a typed in-memory model.
//!
//! An object data file describes a game object: a header of movement
//! constants and sprite sheets, followed by a list of animation frames, each
//! carrying optional spatial elements (hittable volumes, interaction areas,
//! spawn points, and so on).
//!
//! Parsing runs in two stages: the lexer turns the source text into a tree of
//! positioned syntax nodes, and the typed walkers turn that tree into the
//! model, validating values field by field and reporting failures with their
//! source positions.

pub use crate::codec::{decoded_text, needs_decode};
pub use crate::element::b_point::BPoint;
pub use crate::element::bdy::{Bdy, BdyKind, BdyKindParseError};
pub use crate::element::c_point::{CPoint, CPointKind, CPointKindParseError};
pub use crate::element::itr::{Effect, EffectParseError, Itr, ItrKind, ItrKindParseError};
pub use crate::element::o_point::{
    OPoint, OPointFacing, OPointFacingDir, OPointKind, OPointKindParseError,
};
pub use crate::element::w_point::{WPoint, WPointKind, WPointKindParseError};
pub use crate::element::Element;
pub use crate::error::{Error, ErrorV, SourceRef, SourceRefV};
pub use crate::frame::{Frame, FrameV};
pub use crate::frame_number::FrameNumber;
pub use crate::frame_number_next::FrameNumberNext;
pub use crate::frames::Frames;
pub use crate::header::{Header, HeaderV};
pub use crate::lexer::{lex_object, Cursor, LexOutput};
pub use crate::numeric::{Decimal, IntParseError};
pub use crate::object_data::{ObjectData, ObjectDataV};
pub use crate::object_data_parser::{ObjectDataParser, SubRuleWrapper};
pub use crate::object_id::ObjectId;
pub use crate::pic::Pic;
pub use crate::sprite_file::{SpriteFile, SpriteFileV};
pub use crate::state::{State, StateParseError};
pub use crate::syntax::{Node, NodeKind, NodeV};
pub use crate::wait::Wait;
pub use crate::weapon_strength::WeaponStrength;
pub use crate::weapon_strength_index::WeaponStrengthIndex;

mod codec;
mod element;
mod error;
mod frame;
mod frame_number;
mod frame_number_next;
mod frames;
mod header;
mod lexer;
mod numeric;
mod object_data;
mod object_data_parser;
mod object_id;
mod pic;
mod sprite_file;
mod state;
mod syntax;
mod text;
mod wait;
mod weapon_strength;
mod weapon_strength_index;
