//! A person's name, split into its customary parts, with a builder.

use vstd::prelude::*;

verus! {

/// Mathematical model of a [`Name`]: each part as a sequence of characters.
#[verifier::ext_equal]
pub ghost struct NameView {
    pub prefix: Seq<char>,
    pub first: Seq<char>,
    pub middle: Seq<char>,
    pub last: Seq<char>,
    pub suffix: Seq<char>,
    pub alt: Seq<char>,
}

/// The zero-value name: every part is the empty string.
pub open spec fn default_name() -> NameView {
    NameView {
        prefix: Seq::empty(),
        first: Seq::empty(),
        middle: Seq::empty(),
        last: Seq::empty(),
        suffix: Seq::empty(),
        alt: Seq::empty(),
    }
}

/// A person's name: prefix, first, middle, last, suffix, and an
/// alternate form (a nickname or a transliteration).
#[derive(Debug, PartialEq, Eq)]
pub struct Name {
    prefix: String,
    first: String,
    middle: String,
    last: String,
    suffix: String,
    alt: String,
}

impl View for Name {
    type V = NameView;

    closed spec fn view(&self) -> NameView {
        NameView {
            prefix: self.prefix@,
            first: self.first@,
            middle: self.middle@,
            last: self.last@,
            suffix: self.suffix@,
            alt: self.alt@,
        }
    }
}

impl Default for Name {
    /// The zero-value name.
    fn default() -> (r: Self)
        ensures
            r@ == default_name(),
    {
        Name {
            prefix: String::new(),
            first: String::new(),
            middle: String::new(),
            last: String::new(),
            suffix: String::new(),
            alt: String::new(),
        }
    }
}

impl Name {
    /// Constructs a name from all six parts at once.
    pub fn new(prefix: &str, first: &str, middle: &str, last: &str, suffix: &str, alt: &str) -> (r: Self)
        ensures
            r@ == (NameView {
                prefix: prefix@,
                first: first@,
                middle: middle@,
                last: last@,
                suffix: suffix@,
                alt: alt@,
            }),
    {
        Name {
            prefix: prefix.to_owned(),
            first: first.to_owned(),
            middle: middle.to_owned(),
            last: last.to_owned(),
            suffix: suffix.to_owned(),
            alt: alt.to_owned(),
        }
    }
}

/// Model of a [`NameBuilder`]'s accumulated state.
#[verifier::ext_equal]
pub ghost struct NameBuilderView {
    pub prefix: Seq<char>,
    pub first: Seq<char>,
    pub middle: Seq<char>,
    pub last: Seq<char>,
    pub suffix: Seq<char>,
    pub alt: Seq<char>,
}

/// The freshly constructed builder: every field empty.
pub open spec fn default_name_builder() -> NameBuilderView {
    NameBuilderView {
        prefix: Seq::empty(),
        first: Seq::empty(),
        middle: Seq::empty(),
        last: Seq::empty(),
        suffix: Seq::empty(),
        alt: Seq::empty(),
    }
}

impl NameBuilderView {
    /// The builder after overwriting the prefix.
    pub open spec fn with_prefix(self, v: Seq<char>) -> Self {
        NameBuilderView { prefix: v, ..self }
    }

    /// The builder after overwriting the first name.
    pub open spec fn with_first(self, v: Seq<char>) -> Self {
        NameBuilderView { first: v, ..self }
    }

    /// The builder after overwriting the middle name.
    pub open spec fn with_middle(self, v: Seq<char>) -> Self {
        NameBuilderView { middle: v, ..self }
    }

    /// The builder after overwriting the last name.
    pub open spec fn with_last(self, v: Seq<char>) -> Self {
        NameBuilderView { last: v, ..self }
    }

    /// The builder after overwriting the alternate name.
    pub open spec fn with_alt(self, v: Seq<char>) -> Self {
        NameBuilderView { alt: v, ..self }
    }

    /// The name that `build` produces from this builder state.
    pub open spec fn built(self) -> NameView {
        NameView {
            prefix: self.prefix,
            first: self.first,
            middle: self.middle,
            last: self.last,
            suffix: self.suffix,
            alt: self.alt,
        }
    }
}

/// Accumulates the parts of a [`Name`] through chained setters.
///
/// There is no suffix setter: a suffix can only be given through
/// [`Name::new`], so every built name has an empty suffix.
#[derive(Debug, PartialEq, Eq)]
pub struct NameBuilder {
    prefix: String,
    first: String,
    middle: String,
    last: String,
    suffix: String,
    alt: String,
}

impl View for NameBuilder {
    type V = NameBuilderView;

    closed spec fn view(&self) -> NameBuilderView {
        NameBuilderView {
            prefix: self.prefix@,
            first: self.first@,
            middle: self.middle@,
            last: self.last@,
            suffix: self.suffix@,
            alt: self.alt@,
        }
    }
}

impl Default for NameBuilder {
    /// The freshly constructed builder.
    fn default() -> (r: Self)
        ensures
            r@ == default_name_builder(),
    {
        NameBuilder {
            prefix: String::new(),
            first: String::new(),
            middle: String::new(),
            last: String::new(),
            suffix: String::new(),
            alt: String::new(),
        }
    }
}

impl NameBuilder {
    /// A builder with every field at its zero value.
    pub fn new() -> (r: Self)
        ensures
            r@ == default_name_builder(),
    {
        Self::default()
    }

    /// Overwrites the prefix.
    pub fn prefix(self, i: &str) -> (r: Self)
        ensures
            r@ == self@.with_prefix(i@),
    {
        let mut b = self;
        b.prefix = i.to_owned();
        b
    }

    /// Overwrites the first name.
    pub fn first(self, i: &str) -> (r: Self)
        ensures
            r@ == self@.with_first(i@),
    {
        let mut b = self;
        b.first = i.to_owned();
        b
    }

    /// Overwrites the middle name.
    pub fn middle(self, i: &str) -> (r: Self)
        ensures
            r@ == self@.with_middle(i@),
    {
        let mut b = self;
        b.middle = i.to_owned();
        b
    }

    /// Overwrites the last name.
    pub fn last(self, i: &str) -> (r: Self)
        ensures
            r@ == self@.with_last(i@),
    {
        let mut b = self;
        b.last = i.to_owned();
        b
    }

    /// Overwrites the alternate name.
    pub fn alt(self, i: &str) -> (r: Self)
        ensures
            r@ == self@.with_alt(i@),
    {
        let mut b = self;
        b.alt = i.to_owned();
        b
    }

    /// Produces the name held by this builder.
    pub fn build(self) -> (r: Name)
        ensures
            r@ == self@.built(),
    {
        Name {
            prefix: self.prefix,
            first: self.first,
            middle: self.middle,
            last: self.last,
            suffix: self.suffix,
            alt: self.alt,
        }
    }
}

/// A freshly constructed builder, finalized without any setter calls,
/// yields exactly the default name.
pub proof fn lemma_name_builder_default()
    ensures
        default_name_builder().built() == default_name(),
{
}

/// Every part of the default name is the empty string.
pub proof fn lemma_default_name_empty()
    ensures
        default_name().prefix == Seq::<char>::empty(),
        default_name().first == Seq::<char>::empty(),
        default_name().middle == Seq::<char>::empty(),
        default_name().last == Seq::<char>::empty(),
        default_name().suffix == Seq::<char>::empty(),
        default_name().alt == Seq::<char>::empty(),
{
}

/// Calling a scalar setter twice retains only the last value.
pub proof fn lemma_name_setter_overwrites(b: NameBuilderView, v1: Seq<char>, v2: Seq<char>)
    ensures
        b.with_prefix(v1).with_prefix(v2) == b.with_prefix(v2),
        b.with_first(v1).with_first(v2) == b.with_first(v2),
        b.with_middle(v1).with_middle(v2) == b.with_middle(v2),
        b.with_last(v1).with_last(v2) == b.with_last(v2),
        b.with_alt(v1).with_alt(v2) == b.with_alt(v2),
{
}

/// Applying a name's field values through the builder setters and then
/// building reproduces the name.  The suffix must be empty: the builder
/// has no suffix setter, so no other name can come out of it.
pub proof fn lemma_name_round_trip(n: NameView)
    requires
        n.suffix == Seq::<char>::empty(),
    ensures
        default_name_builder()
            .with_prefix(n.prefix)
            .with_first(n.first)
            .with_middle(n.middle)
            .with_last(n.last)
            .with_alt(n.alt)
            .built() == n,
{
    assert(default_name_builder()
        .with_prefix(n.prefix)
        .with_first(n.first)
        .with_middle(n.middle)
        .with_last(n.last)
        .with_alt(n.alt)
        .built() =~= n);
}

} // verus!
