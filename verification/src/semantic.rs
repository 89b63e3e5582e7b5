//! Semantic token encoding: highlight classifications become a token-type
//! index plus a modifier bitmask.
//!
//! The legend this layer publishes is fixed here: [`token_type_index`] gives
//! each token type its position in the legend, and each modifier owns one
//! bit of the mask, named by the `MOD_` constants below.

use vstd::prelude::*;

verus! {

/// The token types of the published legend, in legend order.
#[derive(Clone, Copy, Debug, PartialEq, Eq, Structural)]
pub enum TokenType {
    Comment,
    Keyword,
    StringLit,
    Number,
    Function,
    Method,
    Macro,
    Variable,
    Struct,
    Enum,
    EnumMember,
    Union,
    TypeAlias,
    Interface,
    Type,
    BuiltinType,
    SelfType,
    Member,
    Namespace,
    TypeParameter,
    Lifetime,
    Attribute,
    FormatSpecifier,
    UnresolvedReference,
}

/// The position of each token type in the legend the server announces.
pub open spec fn spec_token_type_index(t: TokenType) -> u32 {
    match t {
        TokenType::Comment => 0,
        TokenType::Keyword => 1,
        TokenType::StringLit => 2,
        TokenType::Number => 3,
        TokenType::Function => 4,
        TokenType::Method => 5,
        TokenType::Macro => 6,
        TokenType::Variable => 7,
        TokenType::Struct => 8,
        TokenType::Enum => 9,
        TokenType::EnumMember => 10,
        TokenType::Union => 11,
        TokenType::TypeAlias => 12,
        TokenType::Interface => 13,
        TokenType::Type => 14,
        TokenType::BuiltinType => 15,
        TokenType::SelfType => 16,
        TokenType::Member => 17,
        TokenType::Namespace => 18,
        TokenType::TypeParameter => 19,
        TokenType::Lifetime => 20,
        TokenType::Attribute => 21,
        TokenType::FormatSpecifier => 22,
        TokenType::UnresolvedReference => 23,
    }
}

/// Look up a token type's legend index.
pub fn token_type_index(t: TokenType) -> (r: u32)
    ensures
        r == spec_token_type_index(t),
{
    match t {
        TokenType::Comment => 0,
        TokenType::Keyword => 1,
        TokenType::StringLit => 2,
        TokenType::Number => 3,
        TokenType::Function => 4,
        TokenType::Method => 5,
        TokenType::Macro => 6,
        TokenType::Variable => 7,
        TokenType::Struct => 8,
        TokenType::Enum => 9,
        TokenType::EnumMember => 10,
        TokenType::Union => 11,
        TokenType::TypeAlias => 12,
        TokenType::Interface => 13,
        TokenType::Type => 14,
        TokenType::BuiltinType => 15,
        TokenType::SelfType => 16,
        TokenType::Member => 17,
        TokenType::Namespace => 18,
        TokenType::TypeParameter => 19,
        TokenType::Lifetime => 20,
        TokenType::Attribute => 21,
        TokenType::FormatSpecifier => 22,
        TokenType::UnresolvedReference => 23,
    }
}

/// Modifier bits of the published legend, one bit per modifier.
pub const MOD_DECLARATION: u32 = 0x01;

pub const MOD_STATIC: u32 = 0x02;

pub const MOD_CONSTANT: u32 = 0x04;

pub const MOD_MUTABLE: u32 = 0x08;

pub const MOD_UNSAFE: u32 = 0x10;

pub const MOD_CONTROL_FLOW: u32 = 0x20;

/// An accumulated set of modifier bits.
#[derive(Clone, Copy, Debug, PartialEq, Eq, Structural)]
pub struct ModifierSet(pub u32);

/// The engine's highlight classification of one span.
#[derive(Clone, Copy, Debug, PartialEq, Eq, Structural)]
pub enum HighlightTag {
    Struct,
    Enum,
    Union,
    TypeAlias,
    Trait,
    BuiltinType,
    SelfType,
    Field,
    Function,
    Module,
    Constant,
    Static,
    EnumVariant,
    Macro,
    Local,
    TypeParam,
    Lifetime,
    ByteLiteral,
    NumericLiteral,
    CharLiteral,
    StringLiteral,
    Comment,
    Attribute,
    Keyword,
    UnresolvedReference,
    FormatSpecifier,
}

/// The engine's highlight modifiers.
#[derive(Clone, Copy, Debug, PartialEq, Eq, Structural)]
pub enum HighlightModifier {
    Definition,
    ControlFlow,
    Mutable,
    Unsafe,
}

/// A highlighted span's classification: its tag plus its modifiers.
#[derive(Debug)]
pub struct Highlight {
    pub tag: HighlightTag,
    pub modifiers: Vec<HighlightModifier>,
}

/// The token type each highlight tag encodes to.
pub open spec fn token_type_of_tag(tag: HighlightTag) -> TokenType {
    match tag {
        HighlightTag::Struct => TokenType::Struct,
        HighlightTag::Enum => TokenType::Enum,
        HighlightTag::Union => TokenType::Union,
        HighlightTag::TypeAlias => TokenType::TypeAlias,
        HighlightTag::Trait => TokenType::Interface,
        HighlightTag::BuiltinType => TokenType::BuiltinType,
        HighlightTag::SelfType => TokenType::Type,
        HighlightTag::Field => TokenType::Member,
        HighlightTag::Function => TokenType::Function,
        HighlightTag::Module => TokenType::Namespace,
        HighlightTag::Constant => TokenType::Variable,
        HighlightTag::Static => TokenType::Variable,
        HighlightTag::EnumVariant => TokenType::EnumMember,
        HighlightTag::Macro => TokenType::Macro,
        HighlightTag::Local => TokenType::Variable,
        HighlightTag::TypeParam => TokenType::TypeParameter,
        HighlightTag::Lifetime => TokenType::Lifetime,
        HighlightTag::ByteLiteral => TokenType::Number,
        HighlightTag::NumericLiteral => TokenType::Number,
        HighlightTag::CharLiteral => TokenType::StringLit,
        HighlightTag::StringLiteral => TokenType::StringLit,
        HighlightTag::Comment => TokenType::Comment,
        HighlightTag::Attribute => TokenType::Attribute,
        HighlightTag::Keyword => TokenType::Keyword,
        HighlightTag::UnresolvedReference => TokenType::UnresolvedReference,
        HighlightTag::FormatSpecifier => TokenType::FormatSpecifier,
    }
}

/// Modifier bits a tag brings by itself: constants are marked constant and
/// static, statics are marked static.
pub open spec fn tag_base_mask(tag: HighlightTag) -> u32 {
    match tag {
        HighlightTag::Constant => MOD_CONSTANT | MOD_STATIC,
        HighlightTag::Static => MOD_STATIC,
        _ => 0,
    }
}

/// The bit each engine modifier sets.
pub open spec fn modifier_bit(m: HighlightModifier) -> u32 {
    match m {
        HighlightModifier::Definition => MOD_DECLARATION,
        HighlightModifier::ControlFlow => MOD_CONTROL_FLOW,
        HighlightModifier::Mutable => MOD_MUTABLE,
        HighlightModifier::Unsafe => MOD_UNSAFE,
    }
}

/// `base` with the bits of every modifier of `mods` set.
pub open spec fn mask_with(mods: Seq<HighlightModifier>, base: u32) -> u32
    decreases mods.len(),
{
    if mods.len() == 0 {
        base
    } else {
        mask_with(mods.drop_last(), base) | modifier_bit(mods.last())
    }
}

/// Look up a modifier's bit.
pub fn to_modifier_bit(m: HighlightModifier) -> (r: u32)
    ensures
        r == modifier_bit(m),
{
    match m {
        HighlightModifier::Definition => MOD_DECLARATION,
        HighlightModifier::ControlFlow => MOD_CONTROL_FLOW,
        HighlightModifier::Mutable => MOD_MUTABLE,
        HighlightModifier::Unsafe => MOD_UNSAFE,
    }
}

/// Encode a highlight as its semantic token pair: the token type's legend
/// index and the accumulated modifier bitmask.
pub fn to_semantic_token(h: &Highlight) -> (r: (u32, u32))
    ensures
        r.0 == spec_token_type_index(token_type_of_tag(h.tag)),
        r.1 == mask_with(h.modifiers@, tag_base_mask(h.tag)),
{
    let tt = match h.tag {
        HighlightTag::Struct => TokenType::Struct,
        HighlightTag::Enum => TokenType::Enum,
        HighlightTag::Union => TokenType::Union,
        HighlightTag::TypeAlias => TokenType::TypeAlias,
        HighlightTag::Trait => TokenType::Interface,
        HighlightTag::BuiltinType => TokenType::BuiltinType,
        HighlightTag::SelfType => TokenType::Type,
        HighlightTag::Field => TokenType::Member,
        HighlightTag::Function => TokenType::Function,
        HighlightTag::Module => TokenType::Namespace,
        HighlightTag::Constant => TokenType::Variable,
        HighlightTag::Static => TokenType::Variable,
        HighlightTag::EnumVariant => TokenType::EnumMember,
        HighlightTag::Macro => TokenType::Macro,
        HighlightTag::Local => TokenType::Variable,
        HighlightTag::TypeParam => TokenType::TypeParameter,
        HighlightTag::Lifetime => TokenType::Lifetime,
        HighlightTag::ByteLiteral => TokenType::Number,
        HighlightTag::NumericLiteral => TokenType::Number,
        HighlightTag::CharLiteral => TokenType::StringLit,
        HighlightTag::StringLiteral => TokenType::StringLit,
        HighlightTag::Comment => TokenType::Comment,
        HighlightTag::Attribute => TokenType::Attribute,
        HighlightTag::Keyword => TokenType::Keyword,
        HighlightTag::UnresolvedReference => TokenType::UnresolvedReference,
        HighlightTag::FormatSpecifier => TokenType::FormatSpecifier,
    };
    let base = match h.tag {
        HighlightTag::Constant => MOD_CONSTANT | MOD_STATIC,
        HighlightTag::Static => MOD_STATIC,
        _ => 0,
    };
    let mut mask: u32 = base;
    let mut i: usize = 0;
    while i < h.modifiers.len()
        invariant
            i <= h.modifiers@.len(),
            mask == mask_with(h.modifiers@.take(i as int), base),
        decreases h.modifiers@.len() - i,
    {
        proof {
            assert(h.modifiers@.take(i + 1).drop_last() =~= h.modifiers@.take(i as int));
            assert(h.modifiers@.take(i + 1).last() == h.modifiers@[i as int]);
        }
        mask = mask | to_modifier_bit(h.modifiers[i]);
        i = i + 1;
    }
    proof {
        assert(h.modifiers@.take(h.modifiers@.len() as int) =~= h.modifiers@);
    }
    (token_type_index(tt), mask)
}

} // verus!
