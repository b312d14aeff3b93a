//! A skill: its name, years of experience, a rank, and two growable
//! lists of category labels.

use vstd::prelude::*;

verus! {

/// Model of a list of labels, in order.
pub open spec fn labels_view(v: Seq<String>) -> Seq<Seq<char>> {
    v.map_values(|s: String| s@)
}

/// Appending one label to the list appends its model to the model.
proof fn lemma_labels_view_push(v: Seq<String>, s: String)
    ensures
        labels_view(v.push(s)) == labels_view(v).push(s@),
{
    assert(labels_view(v.push(s)) =~= labels_view(v).push(s@));
}

/// Mathematical model of a [`Skill`].
#[verifier::ext_equal]
pub ghost struct SkillView {
    pub skill: Seq<char>,
    pub experience: u32,
    pub rank: u32,
    pub category: Seq<Seq<char>>,
    pub sub_category: Seq<Seq<char>>,
}

/// The zero-value skill: empty name, zero numbers, empty lists.
pub open spec fn default_skill() -> SkillView {
    SkillView {
        skill: Seq::empty(),
        experience: 0,
        rank: 0,
        category: Seq::empty(),
        sub_category: Seq::empty(),
    }
}

impl SkillView {
    /// The skill after appending one label to `category`.
    pub open spec fn with_category_added(self, cat: Seq<char>) -> Self {
        SkillView { category: self.category.push(cat), ..self }
    }

    /// The skill after `add_subcategory`.  Note that this too appends
    /// to `category`: `sub_category` has no mutator and can only be
    /// filled through [`Skill::new`] or the builder.
    pub open spec fn with_subcategory_added(self, subcat: Seq<char>) -> Self {
        SkillView { category: self.category.push(subcat), ..self }
    }

    /// The skill after overwriting its name.
    pub open spec fn renamed(self, skill: Seq<char>) -> Self {
        SkillView { skill: skill, ..self }
    }
}

/// One ability and how practiced it is.  `category` and `sub_category`
/// are independently growable label lists, not paired tuples.
#[derive(Debug, PartialEq, Eq)]
pub struct Skill {
    skill: String,
    experience: u32,
    rank: u32,
    category: Vec<String>,
    sub_category: Vec<String>,
}

impl View for Skill {
    type V = SkillView;

    closed spec fn view(&self) -> SkillView {
        SkillView {
            skill: self.skill@,
            experience: self.experience,
            rank: self.rank,
            category: labels_view(self.category@),
            sub_category: labels_view(self.sub_category@),
        }
    }
}

impl Default for Skill {
    /// The zero-value skill.
    fn default() -> (r: Self)
        ensures
            r@ == default_skill(),
    {
        let r = Skill {
            skill: String::new(),
            experience: 0,
            rank: 0,
            category: Vec::new(),
            sub_category: Vec::new(),
        };
        proof {
            assert(r@ =~= default_skill());
        }
        r
    }
}

impl Skill {
    /// A skill with one category label and one sub-category label.
    pub fn new(s: &str, exp: u32, rank: u32, cat: &str, subcat: &str) -> (r: Self)
        ensures
            r@ == (SkillView {
                skill: s@,
                experience: exp,
                rank: rank,
                category: seq![cat@],
                sub_category: seq![subcat@],
            }),
    {
        let mut category: Vec<String> = Vec::new();
        category.push(cat.to_owned());
        let mut sub_category: Vec<String> = Vec::new();
        sub_category.push(subcat.to_owned());
        let r = Skill { skill: s.to_owned(), experience: exp, rank, category, sub_category };
        proof {
            assert(r@.category =~= seq![cat@]);
            assert(r@.sub_category =~= seq![subcat@]);
        }
        r
    }

    /// Appends one label to `category`.
    fn add_category(&mut self, cat: &str)
        ensures
            final(self)@ == old(self)@.with_category_added(cat@),
    {
        let c = cat.to_owned();
        proof {
            lemma_labels_view_push(self.category@, c);
        }
        self.category.push(c);
    }

    /// Appends one label to `category` — not to `sub_category`; the
    /// sub-category list has no mutator of its own.  Kept so for
    /// compatibility; the builder's `assign_subcat` fills
    /// `sub_category` proper.
    pub fn add_subcategory(&mut self, subcat: &str)
        ensures
            final(self)@ == old(self)@.with_subcategory_added(subcat@),
    {
        let s = subcat.to_owned();
        proof {
            lemma_labels_view_push(self.category@, s);
        }
        self.category.push(s);
    }

    /// Appends `cat` and then `subcat`, both to `category` (see
    /// [`Skill::add_subcategory`]); `sub_category` is left unchanged.
    pub fn add_categories(&mut self, cat: &str, subcat: &str)
        ensures
            final(self)@ == old(self)@.with_category_added(cat@).with_subcategory_added(subcat@),
    {
        self.add_category(cat);
        self.add_subcategory(subcat);
    }

    /// Overwrites the skill's name.
    pub fn rename(&mut self, skill: &str)
        ensures
            final(self)@ == old(self)@.renamed(skill@),
    {
        self.skill = skill.to_owned();
    }
}

/// Model of a [`SkillBuilder`]'s accumulated state.
#[verifier::ext_equal]
pub ghost struct SkillBuilderView {
    pub skill: Seq<char>,
    pub experience: u32,
    pub rank: u32,
    pub category: Seq<Seq<char>>,
    pub sub_category: Seq<Seq<char>>,
}

/// The freshly constructed builder: every field at its zero value.
pub open spec fn default_skill_builder() -> SkillBuilderView {
    SkillBuilderView {
        skill: Seq::empty(),
        experience: 0,
        rank: 0,
        category: Seq::empty(),
        sub_category: Seq::empty(),
    }
}

impl SkillBuilderView {
    /// The builder after overwriting the skill name.
    pub open spec fn with_skill(self, v: Seq<char>) -> Self {
        SkillBuilderView { skill: v, ..self }
    }

    /// The builder after overwriting the years of experience.
    pub open spec fn with_exp(self, v: u32) -> Self {
        SkillBuilderView { experience: v, ..self }
    }

    /// The builder after overwriting the rank.
    pub open spec fn with_rank(self, v: u32) -> Self {
        SkillBuilderView { rank: v, ..self }
    }

    /// The builder after appending one label to `category`.
    pub open spec fn with_category(self, v: Seq<char>) -> Self {
        SkillBuilderView { category: self.category.push(v), ..self }
    }

    /// The builder after appending one label to `sub_category`.
    pub open spec fn with_subcat(self, v: Seq<char>) -> Self {
        SkillBuilderView { sub_category: self.sub_category.push(v), ..self }
    }

    /// The skill that `build` produces from this builder state.
    pub open spec fn built(self) -> SkillView {
        SkillView {
            skill: self.skill,
            experience: self.experience,
            rank: self.rank,
            category: self.category,
            sub_category: self.sub_category,
        }
    }
}

/// Accumulates the fields of a [`Skill`] through chained setters.
/// Unlike the mutators on [`Skill`], `assign_subcat` really appends to
/// `sub_category`.
#[derive(Debug, PartialEq, Eq)]
pub struct SkillBuilder {
    skill: String,
    experience: u32,
    rank: u32,
    category: Vec<String>,
    sub_category: Vec<String>,
}

impl View for SkillBuilder {
    type V = SkillBuilderView;

    closed spec fn view(&self) -> SkillBuilderView {
        SkillBuilderView {
            skill: self.skill@,
            experience: self.experience,
            rank: self.rank,
            category: labels_view(self.category@),
            sub_category: labels_view(self.sub_category@),
        }
    }
}

impl Default for SkillBuilder {
    /// The freshly constructed builder.
    fn default() -> (r: Self)
        ensures
            r@ == default_skill_builder(),
    {
        let r = SkillBuilder {
            skill: String::new(),
            experience: 0,
            rank: 0,
            category: Vec::new(),
            sub_category: Vec::new(),
        };
        proof {
            assert(r@ =~= default_skill_builder());
        }
        r
    }
}

impl SkillBuilder {
    /// A builder with every field at its zero value.
    pub fn new() -> (r: Self)
        ensures
            r@ == default_skill_builder(),
    {
        Self::default()
    }

    /// Overwrites the skill name.
    pub fn skill(self, skill: &str) -> (r: Self)
        ensures
            r@ == self@.with_skill(skill@),
    {
        let mut b = self;
        b.skill = skill.to_owned();
        b
    }

    /// Overwrites the years of experience.
    pub fn exp(self, exp: u32) -> (r: Self)
        ensures
            r@ == self@.with_exp(exp),
    {
        let mut b = self;
        b.experience = exp;
        b
    }

    /// Overwrites the rank.
    pub fn rank(self, rank: u32) -> (r: Self)
        ensures
            r@ == self@.with_rank(rank),
    {
        let mut b = self;
        b.rank = rank;
        b
    }

    /// Appends one label to `category`.
    pub fn assign_category(self, cat: &str) -> (r: Self)
        ensures
            r@ == self@.with_category(cat@),
    {
        let mut b = self;
        let c = cat.to_owned();
        proof {
            lemma_labels_view_push(b.category@, c);
        }
        b.category.push(c);
        b
    }

    /// Appends one label to `sub_category`.
    pub fn assign_subcat(self, subcat: &str) -> (r: Self)
        ensures
            r@ == self@.with_subcat(subcat@),
    {
        let mut b = self;
        let s = subcat.to_owned();
        proof {
            lemma_labels_view_push(b.sub_category@, s);
        }
        b.sub_category.push(s);
        b
    }

    /// Produces the skill held by this builder.
    pub fn build(self) -> (r: Skill)
        ensures
            r@ == self@.built(),
    {
        let r = Skill {
            skill: self.skill,
            experience: self.experience,
            rank: self.rank,
            category: self.category,
            sub_category: self.sub_category,
        };
        proof {
            assert(r@ =~= self@.built());
        }
        r
    }
}

/// A freshly constructed builder, finalized without any setter calls,
/// yields exactly the default skill.
pub proof fn lemma_skill_builder_default()
    ensures
        default_skill_builder().built() == default_skill(),
{
}

/// The default skill's name is empty, its numbers are zero and its
/// label lists are empty.
pub proof fn lemma_default_skill_empty()
    ensures
        default_skill().skill == Seq::<char>::empty(),
        default_skill().experience == 0,
        default_skill().rank == 0,
        default_skill().category.len() == 0,
        default_skill().sub_category.len() == 0,
{
}

/// Calling a scalar setter twice retains only the last value.
pub proof fn lemma_skill_setter_overwrites(
    b: SkillBuilderView,
    v1: Seq<char>,
    v2: Seq<char>,
    n1: u32,
    n2: u32,
)
    ensures
        b.with_skill(v1).with_skill(v2) == b.with_skill(v2),
        b.with_exp(n1).with_exp(n2) == b.with_exp(n2),
        b.with_rank(n1).with_rank(n2) == b.with_rank(n2),
{
}

/// `add_categories` pushes both of its arguments onto `category`, in
/// order, and leaves `sub_category` untouched.
pub proof fn lemma_add_categories_both_to_category(s: SkillView, cat: Seq<char>, subcat: Seq<char>)
    ensures
        s.with_category_added(cat).with_subcategory_added(subcat).category == s.category + seq![cat, subcat],
        s.with_category_added(cat).with_subcategory_added(subcat).sub_category == s.sub_category,
{
    assert(s.category.push(cat).push(subcat) =~= s.category + seq![cat, subcat]);
}

/// The builder after one `assign_category` call per label of `items`,
/// in order.
pub open spec fn categories_applied(b: SkillBuilderView, items: Seq<Seq<char>>) -> SkillBuilderView
    decreases items.len(),
{
    if items.len() == 0 {
        b
    } else {
        categories_applied(b.with_category(items[0]), items.drop_first())
    }
}

/// The builder after one `assign_subcat` call per label of `items`,
/// in order.
pub open spec fn subcats_applied(b: SkillBuilderView, items: Seq<Seq<char>>) -> SkillBuilderView
    decreases items.len(),
{
    if items.len() == 0 {
        b
    } else {
        subcats_applied(b.with_subcat(items[0]), items.drop_first())
    }
}

/// Repeated `assign_category` calls append exactly their labels, in
/// order, and touch nothing else.
pub proof fn lemma_categories_applied(b: SkillBuilderView, items: Seq<Seq<char>>)
    ensures
        categories_applied(b, items).category == b.category + items,
        categories_applied(b, items).sub_category == b.sub_category,
        categories_applied(b, items).skill == b.skill,
        categories_applied(b, items).experience == b.experience,
        categories_applied(b, items).rank == b.rank,
    decreases items.len(),
{
    if items.len() == 0 {
        assert(b.category + items =~= b.category);
    } else {
        let b1 = b.with_category(items[0]);
        lemma_categories_applied(b1, items.drop_first());
        assert(b1.category + items.drop_first() =~= b.category + items);
    }
}

/// Repeated `assign_subcat` calls append exactly their labels, in
/// order, and touch nothing else.
pub proof fn lemma_subcats_applied(b: SkillBuilderView, items: Seq<Seq<char>>)
    ensures
        subcats_applied(b, items).sub_category == b.sub_category + items,
        subcats_applied(b, items).category == b.category,
        subcats_applied(b, items).skill == b.skill,
        subcats_applied(b, items).experience == b.experience,
        subcats_applied(b, items).rank == b.rank,
    decreases items.len(),
{
    if items.len() == 0 {
        assert(b.sub_category + items =~= b.sub_category);
    } else {
        let b1 = b.with_subcat(items[0]);
        lemma_subcats_applied(b1, items.drop_first());
        assert(b1.sub_category + items.drop_first() =~= b.sub_category + items);
    }
}

/// Applying a skill's field values through the builder setters — one
/// `assign_category` or `assign_subcat` call per label, in order — and
/// then building reproduces the skill.
pub proof fn lemma_skill_round_trip(s: SkillView)
    ensures
        subcats_applied(
            categories_applied(
                default_skill_builder().with_skill(s.skill).with_exp(s.experience).with_rank(s.rank),
                s.category,
            ),
            s.sub_category,
        ).built() == s,
{
    let b0 = default_skill_builder().with_skill(s.skill).with_exp(s.experience).with_rank(s.rank);
    let b1 = categories_applied(b0, s.category);
    let b2 = subcats_applied(b1, s.sub_category);
    lemma_categories_applied(b0, s.category);
    lemma_subcats_applied(b1, s.sub_category);
    assert(b2.built() =~= s);
}

} // verus!
