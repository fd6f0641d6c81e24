use vstd::prelude::*;
use vstd::std_specs::convert::FromSpecImpl;

verus! {

/// A color, held as the text that names it to the presentation surface.
pub struct Color {
    value: String,
}

impl View for Color {
    type V = Seq<char>;

    closed spec fn view(&self) -> Seq<char> {
        self.value@
    }
}

impl Color {
    /// The color that `value` names.
    pub closed spec fn named(value: String) -> Color {
        Color { value }
    }

    /// The text that names the color.
    pub closed spec fn name(self) -> String {
        self.value
    }

    pub fn value(&self) -> (result: &str)
        ensures
            result@ == self@,
    {
        self.value.as_str()
    }
}

/// A color is the text that names it, and nothing more.
pub proof fn lemma_color_is_its_name(value: String)
    ensures
        Color::named(value)@ == value@,
        Color::named(value).name() == value,
{
}

impl From<&'static str> for Color {
    fn from(value: &'static str) -> (color: Self)
        ensures
            color@ == value@,
    {
        Self { value: String::from_str(value) }
    }
}

impl FromSpecImpl<&'static str> for Color {
    /// The conversion is stated by what `from` ensures of the color's text.
    open spec fn obeys_from_spec() -> bool {
        false
    }

    open spec fn from_spec(value: &'static str) -> Color {
        arbitrary()
    }
}

impl From<String> for Color {
    fn from(value: String) -> (color: Self) {
        Self { value }
    }
}

impl FromSpecImpl<String> for Color {
    open spec fn obeys_from_spec() -> bool {
        true
    }

    open spec fn from_spec(value: String) -> Color {
        Color::named(value)
    }
}

impl From<Color> for String {
    fn from(value: Color) -> (name: Self) {
        value.value
    }
}

impl FromSpecImpl<Color> for String {
    open spec fn obeys_from_spec() -> bool {
        true
    }

    open spec fn from_spec(value: Color) -> String {
        value.name()
    }
}

} // verus!
