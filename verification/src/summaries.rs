//! Traits over record types: a summary trait that each implementor phrases
//! its own way, a trait whose method has a default body, and a trait whose
//! default method builds on the required ones. The string contracts state the
//! exact sequence of characters that comes back.

use vstd::prelude::*;
use vstd::string::StringExecFns;

verus! {

/// The decimal digit character for a value below ten.
pub open spec fn decimal_digit(d: nat) -> char {
    if d == 0 {
        '0'
    } else if d == 1 {
        '1'
    } else if d == 2 {
        '2'
    } else if d == 3 {
        '3'
    } else if d == 4 {
        '4'
    } else if d == 5 {
        '5'
    } else if d == 6 {
        '6'
    } else if d == 7 {
        '7'
    } else if d == 8 {
        '8'
    } else {
        '9'
    }
}

/// The decimal digits of `n`, most significant first, with no leading zero
/// except for the value zero itself.
pub open spec fn decimal_chars(n: nat) -> Seq<char>
    decreases n,
{
    if n < 10 {
        seq![decimal_digit(n)]
    } else {
        decimal_chars(n / 10).push(decimal_digit(n % 10))
    }
}

/// Relies on `u32`'s `Display` impl, which std documents as the decimal
/// representation of the value.
#[verifier::external_body]
fn u32_to_string(n: u32) -> (r: String)
    ensures
        r@ == decimal_chars(n as nat),
{
    format!("{}", n)
}

/// Something that can sum itself up in one line.
pub trait Summary {
    /// The summary line, for contracts.
    spec fn spec_summary(&self) -> Seq<char>;

    /// Builds the summary line.
    fn summarize(&self) -> (r: String)
        ensures
            r@ == self.spec_summary(),
    ;
}

/// A news article with a headline, a place, an author and a body.
pub struct NewsArticle {
    pub headline: String,
    pub location: String,
    pub author: String,
    pub content: String,
}

impl Summary for NewsArticle {
    /// An article is summed up by headline, author and place; the body is
    /// left out.
    open spec fn spec_summary(&self) -> Seq<char> {
        self.headline@ + ", by "@ + self.author@ + " ("@ + self.location@ + ")"@
    }

    fn summarize(&self) -> (r: String) {
        let mut r = String::from_str(self.headline.as_str());
        r.append(", by ");
        r.append(self.author.as_str());
        r.append(" (");
        r.append(self.location.as_str());
        r.append(")");
        r
    }
}

/// A short message with its sender.
pub struct Tweet {
    pub username: String,
    pub content: String,
}

impl Summary for Tweet {
    /// A message is summed up as sender, colon, text.
    open spec fn spec_summary(&self) -> Seq<char> {
        self.username@ + ": "@ + self.content@
    }

    fn summarize(&self) -> (r: String) {
        let mut r = String::from_str(self.username.as_str());
        r.append(": ");
        r.append(self.content.as_str());
        r
    }
}

/// Something that may describe itself; the trait supplies a fallback line.
pub trait Description {
    /// Describes the value; without an override, a fixed fallback line.
    fn describe(&self) -> (r: String)
        default_ensures
            r@ == "No description available."@,
    {
        String::from_str("No description available.")
    }
}

/// An uploaded file, known only by name.
pub struct Upload {
    pub filename: String,
}

impl Description for Upload {
}

/// An image file with its dimensions in pixels.
pub struct Photo {
    pub filename: String,
    pub width: u32,
    pub height: u32,
}

impl Description for Photo {
    /// A photo describes itself as name, then width and height in brackets.
    fn describe(&self) -> (r: String)
        ensures
            r@ == self.filename@ + " ("@ + decimal_chars(self.width as nat) + " x "@
                + decimal_chars(self.height as nat) + ")"@,
    {
        let mut r = String::from_str(self.filename.as_str());
        r.append(" (");
        r.append(u32_to_string(self.width).as_str());
        r.append(" x ");
        r.append(u32_to_string(self.height).as_str());
        r.append(")");
        r
    }
}

/// Something with a width and a height; the area comes with the trait.
pub trait Size {
    /// The width, for contracts.
    spec fn spec_width(&self) -> u32;

    /// The height, for contracts.
    spec fn spec_height(&self) -> u32;

    /// The width in pixels.
    fn width(&self) -> (r: u32)
        ensures
            r == self.spec_width(),
    ;

    /// The height in pixels.
    fn height(&self) -> (r: u32)
        ensures
            r == self.spec_height(),
    ;

    /// The area: width times height.
    fn size(&self) -> (r: u32)
        requires
            self.spec_width() * self.spec_height() <= u32::MAX,
        ensures
            r == self.spec_width() * self.spec_height(),
    {
        self.width() * self.height()
    }
}

impl Size for Photo {
    open spec fn spec_width(&self) -> u32 {
        self.width
    }

    open spec fn spec_height(&self) -> u32 {
        self.height
    }

    fn width(&self) -> (r: u32) {
        self.width
    }

    fn height(&self) -> (r: u32) {
        self.height
    }
}

} // verus!
