use vstd::prelude::*;

verus! {

/// The single punctuation characters that the tokenizer recognises.
#[derive(Clone, Copy, Debug, PartialEq, Eq, Structural)]
pub enum PunctKind {
    Bang,
    Colon,
    Equal,
    SemiColon,
    LAngle,
    RAngle,
    Plus,
    Dash,
    Asterisk,
    Slash,
    Percent,
    Dot,
    Comma,
    LeftParen,
    RightParen,
    LeftBracket,
    RightBracket,
    LeftBrace,
    RightBrace,
    At,
    Caret,
    BackTick,
    Pipe,
    Ampersand,
    Tilde,
    Tilde2,
    Backslash,
    Question,
    Hash,
    Pound,
    Dollar,
    UnderScore,
}

/// The character of a punctuation kind.
pub open spec fn punct_char(k: PunctKind) -> char {
    match k {
        PunctKind::Bang => '!',
        PunctKind::Colon => ':',
        PunctKind::Equal => '=',
        PunctKind::SemiColon => ';',
        PunctKind::LAngle => '<',
        PunctKind::RAngle => '>',
        PunctKind::Plus => '+',
        PunctKind::Dash => '-',
        PunctKind::Asterisk => '*',
        PunctKind::Slash => '/',
        PunctKind::Percent => '%',
        PunctKind::Dot => '.',
        PunctKind::Comma => ',',
        PunctKind::LeftParen => '(',
        PunctKind::RightParen => ')',
        PunctKind::LeftBracket => '[',
        PunctKind::RightBracket => ']',
        PunctKind::LeftBrace => '{',
        PunctKind::RightBrace => '}',
        PunctKind::At => '@',
        PunctKind::Caret => '^',
        PunctKind::BackTick => '`',
        PunctKind::Pipe => '|',
        PunctKind::Ampersand => '&',
        PunctKind::Tilde => '~',
        PunctKind::Tilde2 => '¬',
        PunctKind::Backslash => '\\',
        PunctKind::Question => '?',
        PunctKind::Hash => '#',
        PunctKind::Pound => '£',
        PunctKind::Dollar => '$',
        PunctKind::UnderScore => '_',
    }
}

/// The punctuation kind of a character, if it is one.
pub open spec fn punct_of(c: char) -> Option<PunctKind> {
    if c == '!' {
        Some(PunctKind::Bang)
    } else if c == ':' {
        Some(PunctKind::Colon)
    } else if c == '=' {
        Some(PunctKind::Equal)
    } else if c == ';' {
        Some(PunctKind::SemiColon)
    } else if c == '<' {
        Some(PunctKind::LAngle)
    } else if c == '>' {
        Some(PunctKind::RAngle)
    } else if c == '+' {
        Some(PunctKind::Plus)
    } else if c == '-' {
        Some(PunctKind::Dash)
    } else if c == '*' {
        Some(PunctKind::Asterisk)
    } else if c == '/' {
        Some(PunctKind::Slash)
    } else if c == '%' {
        Some(PunctKind::Percent)
    } else if c == '.' {
        Some(PunctKind::Dot)
    } else if c == ',' {
        Some(PunctKind::Comma)
    } else if c == '(' {
        Some(PunctKind::LeftParen)
    } else if c == ')' {
        Some(PunctKind::RightParen)
    } else if c == '[' {
        Some(PunctKind::LeftBracket)
    } else if c == ']' {
        Some(PunctKind::RightBracket)
    } else if c == '{' {
        Some(PunctKind::LeftBrace)
    } else if c == '}' {
        Some(PunctKind::RightBrace)
    } else if c == '@' {
        Some(PunctKind::At)
    } else if c == '^' {
        Some(PunctKind::Caret)
    } else if c == '`' {
        Some(PunctKind::BackTick)
    } else if c == '|' {
        Some(PunctKind::Pipe)
    } else if c == '&' {
        Some(PunctKind::Ampersand)
    } else if c == '~' {
        Some(PunctKind::Tilde)
    } else if c == '¬' {
        Some(PunctKind::Tilde2)
    } else if c == '\\' {
        Some(PunctKind::Backslash)
    } else if c == '?' {
        Some(PunctKind::Question)
    } else if c == '#' {
        Some(PunctKind::Hash)
    } else if c == '£' {
        Some(PunctKind::Pound)
    } else if c == '$' {
        Some(PunctKind::Dollar)
    } else if c == '_' {
        Some(PunctKind::UnderScore)
    } else {
        None
    }
}

impl PunctKind {
    pub fn to_char(self) -> (r: char)
        ensures
            r == punct_char(self),
    {
        match self {
            PunctKind::Bang => '!',
            PunctKind::Colon => ':',
            PunctKind::Equal => '=',
            PunctKind::SemiColon => ';',
            PunctKind::LAngle => '<',
            PunctKind::RAngle => '>',
            PunctKind::Plus => '+',
            PunctKind::Dash => '-',
            PunctKind::Asterisk => '*',
            PunctKind::Slash => '/',
            PunctKind::Percent => '%',
            PunctKind::Dot => '.',
            PunctKind::Comma => ',',
            PunctKind::LeftParen => '(',
            PunctKind::RightParen => ')',
            PunctKind::LeftBracket => '[',
            PunctKind::RightBracket => ']',
            PunctKind::LeftBrace => '{',
            PunctKind::RightBrace => '}',
            PunctKind::At => '@',
            PunctKind::Caret => '^',
            PunctKind::BackTick => '`',
            PunctKind::Pipe => '|',
            PunctKind::Ampersand => '&',
            PunctKind::Tilde => '~',
            PunctKind::Tilde2 => '¬',
            PunctKind::Backslash => '\\',
            PunctKind::Question => '?',
            PunctKind::Hash => '#',
            PunctKind::Pound => '£',
            PunctKind::Dollar => '$',
            PunctKind::UnderScore => '_',
        }
    }

    pub fn from_char(c: char) -> (r: Option<PunctKind>)
        ensures
            r == punct_of(c),
    {
        match c {
            '!' => Some(PunctKind::Bang),
            ':' => Some(PunctKind::Colon),
            '=' => Some(PunctKind::Equal),
            ';' => Some(PunctKind::SemiColon),
            '<' => Some(PunctKind::LAngle),
            '>' => Some(PunctKind::RAngle),
            '+' => Some(PunctKind::Plus),
            '-' => Some(PunctKind::Dash),
            '*' => Some(PunctKind::Asterisk),
            '/' => Some(PunctKind::Slash),
            '%' => Some(PunctKind::Percent),
            '.' => Some(PunctKind::Dot),
            ',' => Some(PunctKind::Comma),
            '(' => Some(PunctKind::LeftParen),
            ')' => Some(PunctKind::RightParen),
            '[' => Some(PunctKind::LeftBracket),
            ']' => Some(PunctKind::RightBracket),
            '{' => Some(PunctKind::LeftBrace),
            '}' => Some(PunctKind::RightBrace),
            '@' => Some(PunctKind::At),
            '^' => Some(PunctKind::Caret),
            '`' => Some(PunctKind::BackTick),
            '|' => Some(PunctKind::Pipe),
            '&' => Some(PunctKind::Ampersand),
            '~' => Some(PunctKind::Tilde),
            '¬' => Some(PunctKind::Tilde2),
            '\\' => Some(PunctKind::Backslash),
            '?' => Some(PunctKind::Question),
            '#' => Some(PunctKind::Hash),
            '£' => Some(PunctKind::Pound),
            '$' => Some(PunctKind::Dollar),
            '_' => Some(PunctKind::UnderScore),
            _ => None,
        }
    }
}

/// Reading a kind's character back gives the same kind.
pub proof fn lemma_punct_char_round_trip(k: PunctKind)
    ensures
        punct_of(punct_char(k)) == Some(k),
{
}

/// Punctuation of two or three characters, assembled at parse time from
/// adjacent single punctuation entries.
#[derive(Clone, Copy, Debug, PartialEq, Eq, Structural)]
pub enum CompositeKind {
    BangEqual,
    GreaterEqual,
    LessEqual,
    PlusEqual,
    DashEqual,
    AsteriskEqual,
    SlashEqual,
    PercentEqual,
    LAngleLAngle,
    RAngleRAngle,
    LThinArrow,
    RThinArrow,
    FatArrow,
    SlashSlash,
    ColonColon,
    HashHash,
    LogicalAnd,
    LogicalOr,
    HashHashHash,
    SlashSlashEqual,
    LAngleLAngleEqual,
    RAngleRAngleEqual,
    ColonColonEqual,
}

/// The single punctuation kinds that make up a composite, in order.
pub open spec fn composite_parts(k: CompositeKind) -> Seq<PunctKind> {
    match k {
        CompositeKind::BangEqual => seq![PunctKind::Bang, PunctKind::Equal],
        CompositeKind::GreaterEqual => seq![PunctKind::RAngle, PunctKind::Equal],
        CompositeKind::LessEqual => seq![PunctKind::LAngle, PunctKind::Equal],
        CompositeKind::PlusEqual => seq![PunctKind::Plus, PunctKind::Equal],
        CompositeKind::DashEqual => seq![PunctKind::Dash, PunctKind::Equal],
        CompositeKind::AsteriskEqual => seq![PunctKind::Asterisk, PunctKind::Equal],
        CompositeKind::SlashEqual => seq![PunctKind::Slash, PunctKind::Equal],
        CompositeKind::PercentEqual => seq![PunctKind::Percent, PunctKind::Equal],
        CompositeKind::LAngleLAngle => seq![PunctKind::LAngle, PunctKind::LAngle],
        CompositeKind::RAngleRAngle => seq![PunctKind::RAngle, PunctKind::RAngle],
        CompositeKind::LThinArrow => seq![PunctKind::LAngle, PunctKind::Dash],
        CompositeKind::RThinArrow => seq![PunctKind::Dash, PunctKind::RAngle],
        CompositeKind::FatArrow => seq![PunctKind::Equal, PunctKind::RAngle],
        CompositeKind::SlashSlash => seq![PunctKind::Slash, PunctKind::Slash],
        CompositeKind::ColonColon => seq![PunctKind::Colon, PunctKind::Colon],
        CompositeKind::HashHash => seq![PunctKind::Hash, PunctKind::Hash],
        CompositeKind::LogicalAnd => seq![PunctKind::Ampersand, PunctKind::Ampersand],
        CompositeKind::LogicalOr => seq![PunctKind::Pipe, PunctKind::Pipe],
        CompositeKind::HashHashHash => seq![PunctKind::Hash, PunctKind::Hash, PunctKind::Hash],
        CompositeKind::SlashSlashEqual => seq![PunctKind::Slash, PunctKind::Slash, PunctKind::Equal],
        CompositeKind::LAngleLAngleEqual => seq![PunctKind::LAngle, PunctKind::LAngle, PunctKind::Equal],
        CompositeKind::RAngleRAngleEqual => seq![PunctKind::RAngle, PunctKind::RAngle, PunctKind::Equal],
        CompositeKind::ColonColonEqual => seq![PunctKind::Colon, PunctKind::Colon, PunctKind::Equal],
    }
}

impl CompositeKind {
    pub fn parts(self) -> (r: Vec<PunctKind>)
        ensures
            r@ == composite_parts(self),
    {
        match self {
            CompositeKind::BangEqual => vec![PunctKind::Bang, PunctKind::Equal],
            CompositeKind::GreaterEqual => vec![PunctKind::RAngle, PunctKind::Equal],
            CompositeKind::LessEqual => vec![PunctKind::LAngle, PunctKind::Equal],
            CompositeKind::PlusEqual => vec![PunctKind::Plus, PunctKind::Equal],
            CompositeKind::DashEqual => vec![PunctKind::Dash, PunctKind::Equal],
            CompositeKind::AsteriskEqual => vec![PunctKind::Asterisk, PunctKind::Equal],
            CompositeKind::SlashEqual => vec![PunctKind::Slash, PunctKind::Equal],
            CompositeKind::PercentEqual => vec![PunctKind::Percent, PunctKind::Equal],
            CompositeKind::LAngleLAngle => vec![PunctKind::LAngle, PunctKind::LAngle],
            CompositeKind::RAngleRAngle => vec![PunctKind::RAngle, PunctKind::RAngle],
            CompositeKind::LThinArrow => vec![PunctKind::LAngle, PunctKind::Dash],
            CompositeKind::RThinArrow => vec![PunctKind::Dash, PunctKind::RAngle],
            CompositeKind::FatArrow => vec![PunctKind::Equal, PunctKind::RAngle],
            CompositeKind::SlashSlash => vec![PunctKind::Slash, PunctKind::Slash],
            CompositeKind::ColonColon => vec![PunctKind::Colon, PunctKind::Colon],
            CompositeKind::HashHash => vec![PunctKind::Hash, PunctKind::Hash],
            CompositeKind::LogicalAnd => vec![PunctKind::Ampersand, PunctKind::Ampersand],
            CompositeKind::LogicalOr => vec![PunctKind::Pipe, PunctKind::Pipe],
            CompositeKind::HashHashHash => vec![PunctKind::Hash, PunctKind::Hash, PunctKind::Hash],
            CompositeKind::SlashSlashEqual => vec![PunctKind::Slash, PunctKind::Slash, PunctKind::Equal],
            CompositeKind::LAngleLAngleEqual => vec![PunctKind::LAngle, PunctKind::LAngle, PunctKind::Equal],
            CompositeKind::RAngleRAngleEqual => vec![PunctKind::RAngle, PunctKind::RAngle, PunctKind::Equal],
            CompositeKind::ColonColonEqual => vec![PunctKind::Colon, PunctKind::Colon, PunctKind::Equal],
        }
    }
}

} // verus!
