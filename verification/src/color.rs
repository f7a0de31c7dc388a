//! The palette colors a chart can use, and the best-effort mapping from
//! color-name strings to palette entries: recognized lowercase names become
//! entries, unrecognized names are silently dropped.

use vstd::prelude::*;

verus! {

/// A display color of the palette. These are the recognized color names.
#[derive(Clone, Copy, PartialEq, Eq, Structural, Debug)]
pub enum Color {
    Red,
    Green,
    Yellow,
    Blue,
    Magenta,
    Cyan,
    White,
}

/// The color a name denotes; `None` for an unrecognized name.
pub open spec fn color_of_name(s: Seq<char>) -> Option<Color> {
    if s == "red"@ {
        Some(Color::Red)
    } else if s == "green"@ {
        Some(Color::Green)
    } else if s == "yellow"@ {
        Some(Color::Yellow)
    } else if s == "blue"@ {
        Some(Color::Blue)
    } else if s == "magenta"@ {
        Some(Color::Magenta)
    } else if s == "cyan"@ {
        Some(Color::Cyan)
    } else if s == "white"@ {
        Some(Color::White)
    } else {
        None
    }
}

/// The palette a sequence of names configures: the recognized names' colors in
/// order, with unrecognized names dropped.
pub open spec fn palette_of_names(names: Seq<Seq<char>>) -> Seq<Color>
    decreases names.len(),
{
    if names.len() == 0 {
        Seq::empty()
    } else {
        let rest = palette_of_names(names.drop_last());
        match color_of_name(names.last()) {
            Some(c) => rest.push(c),
            None => rest,
        }
    }
}

/// Resolves one color name, case-sensitively.
pub fn color_from_name(name: &String) -> (r: Option<Color>)
    ensures
        r == color_of_name(name@),
{
    if *name == String::from_str("red") {
        Some(Color::Red)
    } else if *name == String::from_str("green") {
        Some(Color::Green)
    } else if *name == String::from_str("yellow") {
        Some(Color::Yellow)
    } else if *name == String::from_str("blue") {
        Some(Color::Blue)
    } else if *name == String::from_str("magenta") {
        Some(Color::Magenta)
    } else if *name == String::from_str("cyan") {
        Some(Color::Cyan)
    } else if *name == String::from_str("white") {
        Some(Color::White)
    } else {
        None
    }
}

/// Builds the palette that `names` configures.
pub fn palette_from_names(names: &Vec<String>) -> (r: Vec<Color>)
    ensures
        r@ == palette_of_names(names.deep_view()),
{
    let mut palette: Vec<Color> = Vec::new();
    let mut i: usize = 0;
    proof {
        assert(palette@ =~= palette_of_names(names.deep_view().take(0)));
    }
    while i < names.len()
        invariant
            i <= names.len(),
            names.deep_view().len() == names.len(),
            palette@ == palette_of_names(names.deep_view().take(i as int)),
        decreases names.len() - i,
    {
        match color_from_name(&names[i]) {
            Some(c) => {
                palette.push(c);
            },
            None => {},
        }
        proof {
            let ghost nv = names.deep_view();
            assert(nv.take(i + 1).drop_last() =~= nv.take(i as int));
            assert(nv.take(i + 1).last() == nv[i as int]);
            assert(nv[i as int] == names[i as int]@);
        }
        i = i + 1;
    }
    proof {
        assert(names.deep_view().take(names.len() as int) =~= names.deep_view());
    }
    palette
}

} // verus!
