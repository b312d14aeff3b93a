//! Contact information: labelled phone, email, web and chat entries,
//! each an append-only, ordered sequence of (label, value) pairs.

use vstd::prelude::*;

verus! {

/// Model of one labelled entry: the label and the value.
pub open spec fn pair_view(p: (String, String)) -> (Seq<char>, Seq<char>) {
    (p.0@, p.1@)
}

/// Model of a whole entry list, in order.
pub open spec fn pairs_view(v: Seq<(String, String)>) -> Seq<(Seq<char>, Seq<char>)> {
    v.map_values(|p: (String, String)| pair_view(p))
}

/// Appending one entry to the list appends its model to the model.
proof fn lemma_pairs_view_push(v: Seq<(String, String)>, p: (String, String))
    ensures
        pairs_view(v.push(p)) == pairs_view(v).push(pair_view(p)),
{
    assert(pairs_view(v.push(p)) =~= pairs_view(v).push(pair_view(p)));
}

/// Mathematical model of a [`Contact`].
#[verifier::ext_equal]
pub ghost struct ContactView {
    pub phone: Seq<(Seq<char>, Seq<char>)>,
    pub email: Seq<(Seq<char>, Seq<char>)>,
    pub web: Seq<(Seq<char>, Seq<char>)>,
    pub chat: Seq<(Seq<char>, Seq<char>)>,
}

/// The zero-value contact: every entry list empty.
pub open spec fn default_contact() -> ContactView {
    ContactView {
        phone: Seq::empty(),
        email: Seq::empty(),
        web: Seq::empty(),
        chat: Seq::empty(),
    }
}

impl ContactView {
    /// The contact after appending one phone entry.
    pub open spec fn with_phone_added(self, label: Seq<char>, value: Seq<char>) -> Self {
        ContactView { phone: self.phone.push((label, value)), ..self }
    }

    /// The contact after appending one email entry.
    pub open spec fn with_email_added(self, label: Seq<char>, value: Seq<char>) -> Self {
        ContactView { email: self.email.push((label, value)), ..self }
    }

    /// The contact after appending one web entry.
    pub open spec fn with_web_added(self, label: Seq<char>, value: Seq<char>) -> Self {
        ContactView { web: self.web.push((label, value)), ..self }
    }
}

/// Labelled ways to reach a person: phone numbers, email addresses,
/// web pages and chat handles.  Labels need not be unique and entries
/// keep their insertion order.
///
/// There is no `add_chat` mutator: chat entries can only be added
/// through the builder.
#[derive(Debug, PartialEq, Eq)]
pub struct Contact {
    phone: Vec<(String, String)>,
    email: Vec<(String, String)>,
    web: Vec<(String, String)>,
    chat: Vec<(String, String)>,
}

impl View for Contact {
    type V = ContactView;

    closed spec fn view(&self) -> ContactView {
        ContactView {
            phone: pairs_view(self.phone@),
            email: pairs_view(self.email@),
            web: pairs_view(self.web@),
            chat: pairs_view(self.chat@),
        }
    }
}

impl Default for Contact {
    /// The zero-value contact.
    fn default() -> (r: Self)
        ensures
            r@ == default_contact(),
    {
        let r = Contact { phone: Vec::new(), email: Vec::new(), web: Vec::new(), chat: Vec::new() };
        proof {
            assert(r@ =~= default_contact());
        }
        r
    }
}

impl Contact {
    /// An empty contact.
    pub fn new() -> (r: Self)
        ensures
            r@ == default_contact(),
    {
        Self::default()
    }

    /// Appends one labelled phone entry; earlier entries are kept in order.
    pub fn add_phone(&mut self, label: &str, phone: &str)
        ensures
            final(self)@ == old(self)@.with_phone_added(label@, phone@),
    {
        let l = label.to_owned();
        let p = phone.to_owned();
        proof {
            lemma_pairs_view_push(self.phone@, (l, p));
        }
        self.phone.push((l, p));
    }

    /// Appends one labelled email entry; earlier entries are kept in order.
    pub fn add_email(&mut self, label: &str, email: &str)
        ensures
            final(self)@ == old(self)@.with_email_added(label@, email@),
    {
        let l = label.to_owned();
        let e = email.to_owned();
        proof {
            lemma_pairs_view_push(self.email@, (l, e));
        }
        self.email.push((l, e));
    }

    /// Appends one labelled web entry; earlier entries are kept in order.
    pub fn add_web(&mut self, label: &str, website: &str)
        ensures
            final(self)@ == old(self)@.with_web_added(label@, website@),
    {
        let l = label.to_owned();
        let w = website.to_owned();
        proof {
            lemma_pairs_view_push(self.web@, (l, w));
        }
        self.web.push((l, w));
    }
}

/// Model of a [`ContactBuilder`]'s accumulated state.
#[verifier::ext_equal]
pub ghost struct ContactBuilderView {
    pub phone: Seq<(Seq<char>, Seq<char>)>,
    pub email: Seq<(Seq<char>, Seq<char>)>,
    pub web: Seq<(Seq<char>, Seq<char>)>,
    pub chat: Seq<(Seq<char>, Seq<char>)>,
}

/// The freshly constructed builder: every entry list empty.
pub open spec fn default_contact_builder() -> ContactBuilderView {
    ContactBuilderView {
        phone: Seq::empty(),
        email: Seq::empty(),
        web: Seq::empty(),
        chat: Seq::empty(),
    }
}

impl ContactBuilderView {
    /// The builder after appending one phone entry.
    pub open spec fn with_phone(self, label: Seq<char>, value: Seq<char>) -> Self {
        ContactBuilderView { phone: self.phone.push((label, value)), ..self }
    }

    /// The builder after appending one email entry.
    pub open spec fn with_email(self, label: Seq<char>, value: Seq<char>) -> Self {
        ContactBuilderView { email: self.email.push((label, value)), ..self }
    }

    /// The builder after appending one web entry.
    pub open spec fn with_web(self, label: Seq<char>, value: Seq<char>) -> Self {
        ContactBuilderView { web: self.web.push((label, value)), ..self }
    }

    /// The builder after appending one chat entry.
    pub open spec fn with_chat(self, label: Seq<char>, value: Seq<char>) -> Self {
        ContactBuilderView { chat: self.chat.push((label, value)), ..self }
    }

    /// The contact that `build` produces from this builder state.
    pub open spec fn built(self) -> ContactView {
        ContactView { phone: self.phone, email: self.email, web: self.web, chat: self.chat }
    }
}

/// Accumulates the entries of a [`Contact`] through chained setters.
#[derive(Debug, PartialEq, Eq)]
pub struct ContactBuilder {
    phone: Vec<(String, String)>,
    email: Vec<(String, String)>,
    web: Vec<(String, String)>,
    chat: Vec<(String, String)>,
}

impl View for ContactBuilder {
    type V = ContactBuilderView;

    closed spec fn view(&self) -> ContactBuilderView {
        ContactBuilderView {
            phone: pairs_view(self.phone@),
            email: pairs_view(self.email@),
            web: pairs_view(self.web@),
            chat: pairs_view(self.chat@),
        }
    }
}

impl Default for ContactBuilder {
    /// The freshly constructed builder.
    fn default() -> (r: Self)
        ensures
            r@ == default_contact_builder(),
    {
        let r = ContactBuilder {
            phone: Vec::new(),
            email: Vec::new(),
            web: Vec::new(),
            chat: Vec::new(),
        };
        proof {
            assert(r@ =~= default_contact_builder());
        }
        r
    }
}

impl ContactBuilder {
    /// A builder with every entry list empty.
    pub fn new() -> (r: Self)
        ensures
            r@ == default_contact_builder(),
    {
        Self::default()
    }

    /// Appends one labelled phone entry.
    pub fn phone(self, label: &str, phone: &str) -> (r: Self)
        ensures
            r@ == self@.with_phone(label@, phone@),
    {
        let mut b = self;
        let l = label.to_owned();
        let p = phone.to_owned();
        proof {
            lemma_pairs_view_push(b.phone@, (l, p));
        }
        b.phone.push((l, p));
        b
    }

    /// Appends one labelled email entry.
    pub fn email(self, label: &str, email: &str) -> (r: Self)
        ensures
            r@ == self@.with_email(label@, email@),
    {
        let mut b = self;
        let l = label.to_owned();
        let e = email.to_owned();
        proof {
            lemma_pairs_view_push(b.email@, (l, e));
        }
        b.email.push((l, e));
        b
    }

    /// Appends one labelled web entry.
    pub fn web(self, label: &str, web: &str) -> (r: Self)
        ensures
            r@ == self@.with_web(label@, web@),
    {
        let mut b = self;
        let l = label.to_owned();
        let w = web.to_owned();
        proof {
            lemma_pairs_view_push(b.web@, (l, w));
        }
        b.web.push((l, w));
        b
    }

    /// Appends one labelled chat entry.
    pub fn chat(self, label: &str, chat: &str) -> (r: Self)
        ensures
            r@ == self@.with_chat(label@, chat@),
    {
        let mut b = self;
        let l = label.to_owned();
        let c = chat.to_owned();
        proof {
            lemma_pairs_view_push(b.chat@, (l, c));
        }
        b.chat.push((l, c));
        b
    }

    /// Produces the contact held by this builder.
    pub fn build(self) -> (r: Contact)
        ensures
            r@ == self@.built(),
    {
        let r = Contact { phone: self.phone, email: self.email, web: self.web, chat: self.chat };
        proof {
            assert(r@ =~= self@.built());
        }
        r
    }
}

/// A freshly constructed builder, finalized without any setter calls,
/// yields exactly the default contact.
pub proof fn lemma_contact_builder_default()
    ensures
        default_contact_builder().built() == default_contact(),
{
}

/// Every entry list of the default contact is empty.
pub proof fn lemma_default_contact_empty()
    ensures
        default_contact().phone.len() == 0,
        default_contact().email.len() == 0,
        default_contact().web.len() == 0,
        default_contact().chat.len() == 0,
{
}

/// Appending two entries keeps both, in call order, after everything
/// that was already there: nothing is sorted, deduplicated or dropped.
pub proof fn lemma_contact_appends_in_order(
    c: ContactView,
    l1: Seq<char>,
    v1: Seq<char>,
    l2: Seq<char>,
    v2: Seq<char>,
)
    ensures
        c.with_phone_added(l1, v1).with_phone_added(l2, v2).phone == c.phone + seq![(l1, v1), (l2, v2)],
        c.with_email_added(l1, v1).with_email_added(l2, v2).email == c.email + seq![(l1, v1), (l2, v2)],
        c.with_web_added(l1, v1).with_web_added(l2, v2).web == c.web + seq![(l1, v1), (l2, v2)],
{
    assert(c.phone.push((l1, v1)).push((l2, v2)) =~= c.phone + seq![(l1, v1), (l2, v2)]);
    assert(c.email.push((l1, v1)).push((l2, v2)) =~= c.email + seq![(l1, v1), (l2, v2)]);
    assert(c.web.push((l1, v1)).push((l2, v2)) =~= c.web + seq![(l1, v1), (l2, v2)]);
}

/// The builder after one `phone` call per entry of `items`, in order.
pub open spec fn phones_applied(
    b: ContactBuilderView,
    items: Seq<(Seq<char>, Seq<char>)>,
) -> ContactBuilderView
    decreases items.len(),
{
    if items.len() == 0 {
        b
    } else {
        phones_applied(b.with_phone(items[0].0, items[0].1), items.drop_first())
    }
}

/// The builder after one `email` call per entry of `items`, in order.
pub open spec fn emails_applied(
    b: ContactBuilderView,
    items: Seq<(Seq<char>, Seq<char>)>,
) -> ContactBuilderView
    decreases items.len(),
{
    if items.len() == 0 {
        b
    } else {
        emails_applied(b.with_email(items[0].0, items[0].1), items.drop_first())
    }
}

/// The builder after one `web` call per entry of `items`, in order.
pub open spec fn webs_applied(
    b: ContactBuilderView,
    items: Seq<(Seq<char>, Seq<char>)>,
) -> ContactBuilderView
    decreases items.len(),
{
    if items.len() == 0 {
        b
    } else {
        webs_applied(b.with_web(items[0].0, items[0].1), items.drop_first())
    }
}

/// The builder after one `chat` call per entry of `items`, in order.
pub open spec fn chats_applied(
    b: ContactBuilderView,
    items: Seq<(Seq<char>, Seq<char>)>,
) -> ContactBuilderView
    decreases items.len(),
{
    if items.len() == 0 {
        b
    } else {
        chats_applied(b.with_chat(items[0].0, items[0].1), items.drop_first())
    }
}

/// Repeated `phone` calls append exactly their entries, in order, and
/// touch no other list.
pub proof fn lemma_phones_applied(b: ContactBuilderView, items: Seq<(Seq<char>, Seq<char>)>)
    ensures
        phones_applied(b, items).phone == b.phone + items,
        phones_applied(b, items).email == b.email,
        phones_applied(b, items).web == b.web,
        phones_applied(b, items).chat == b.chat,
    decreases items.len(),
{
    if items.len() == 0 {
        assert(b.phone + items =~= b.phone);
    } else {
        let b1 = b.with_phone(items[0].0, items[0].1);
        lemma_phones_applied(b1, items.drop_first());
        assert(b1.phone + items.drop_first() =~= b.phone + items);
    }
}

/// Repeated `email` calls append exactly their entries, in order, and
/// touch no other list.
pub proof fn lemma_emails_applied(b: ContactBuilderView, items: Seq<(Seq<char>, Seq<char>)>)
    ensures
        emails_applied(b, items).email == b.email + items,
        emails_applied(b, items).phone == b.phone,
        emails_applied(b, items).web == b.web,
        emails_applied(b, items).chat == b.chat,
    decreases items.len(),
{
    if items.len() == 0 {
        assert(b.email + items =~= b.email);
    } else {
        let b1 = b.with_email(items[0].0, items[0].1);
        lemma_emails_applied(b1, items.drop_first());
        assert(b1.email + items.drop_first() =~= b.email + items);
    }
}

/// Repeated `web` calls append exactly their entries, in order, and
/// touch no other list.
pub proof fn lemma_webs_applied(b: ContactBuilderView, items: Seq<(Seq<char>, Seq<char>)>)
    ensures
        webs_applied(b, items).web == b.web + items,
        webs_applied(b, items).phone == b.phone,
        webs_applied(b, items).email == b.email,
        webs_applied(b, items).chat == b.chat,
    decreases items.len(),
{
    if items.len() == 0 {
        assert(b.web + items =~= b.web);
    } else {
        let b1 = b.with_web(items[0].0, items[0].1);
        lemma_webs_applied(b1, items.drop_first());
        assert(b1.web + items.drop_first() =~= b.web + items);
    }
}

/// Repeated `chat` calls append exactly their entries, in order, and
/// touch no other list.
pub proof fn lemma_chats_applied(b: ContactBuilderView, items: Seq<(Seq<char>, Seq<char>)>)
    ensures
        chats_applied(b, items).chat == b.chat + items,
        chats_applied(b, items).phone == b.phone,
        chats_applied(b, items).email == b.email,
        chats_applied(b, items).web == b.web,
    decreases items.len(),
{
    if items.len() == 0 {
        assert(b.chat + items =~= b.chat);
    } else {
        let b1 = b.with_chat(items[0].0, items[0].1);
        lemma_chats_applied(b1, items.drop_first());
        assert(b1.chat + items.drop_first() =~= b.chat + items);
    }
}

/// Applying a contact's entries through the builder setters, one call
/// per entry in order, and then building reproduces the contact.
pub proof fn lemma_contact_round_trip(c: ContactView)
    ensures
        chats_applied(
            webs_applied(
                emails_applied(phones_applied(default_contact_builder(), c.phone), c.email),
                c.web,
            ),
            c.chat,
        ).built() == c,
{
    let b1 = phones_applied(default_contact_builder(), c.phone);
    let b2 = emails_applied(b1, c.email);
    let b3 = webs_applied(b2, c.web);
    let b4 = chats_applied(b3, c.chat);
    lemma_phones_applied(default_contact_builder(), c.phone);
    lemma_emails_applied(b1, c.email);
    lemma_webs_applied(b2, c.web);
    lemma_chats_applied(b3, c.chat);
    assert(b4.built() =~= c);
}

} // verus!
