//! Problem details for HTTP APIs, as RFC 9457 defines them: a problem type, an optional
//! "detail" and "instance", and extension members.

use vstd::prelude::*;

use crate::text::str_eq;

verus! {

/// The media type `mime::Mime`.
#[verifier::external_type_specification]
#[verifier::external_body]
pub struct ExMime(mime::Mime);

/// The media type that `str::parse::<mime::Mime>` reads from `s`, or `None` where it refuses
/// `s`; a function of the text alone.
pub uninterp spec fn parsed_mime(s: Seq<char>) -> Option<mime::Mime>;

/// `str::parse::<mime::Mime>`: reads a media type. Its result is named by [`parsed_mime`]. The
/// `mime` crate accepts a type and a subtype made of token characters around a `/`, with a `+`
/// allowed inside the subtype, so it accepts `application/problem+json`; for other strings
/// whether it succeeds is not stated.
#[verifier::external_body]
fn parse_mime(s: &str) -> (r: Option<mime::Mime>)
    ensures
        r == parsed_mime(s@),
        s@ == "application/problem+json"@ ==> r is Some,
{
    s.parse::<mime::Mime>().ok()
}

/// The media type of problem details responses, `application/problem+json`, as a `Mime`.
pub fn content_type() -> (r: mime::Mime)
    ensures
        parsed_mime("application/problem+json"@) == Some(r),
{
    parse_mime(content_type_str()).unwrap()
}

/// The media type of problem details responses.
pub fn content_type_str() -> (r: &'static str)
    ensures
        r@ == "application/problem+json"@,
{
    "application/problem+json"
}

/// Extension members of a problem details object: names with the JSON text of their values,
/// each name at most once, in the order in which the names were first added.
#[derive(Debug)]
pub struct ExtensionMembers {
    members: Vec<(String, String)>,
}

/// The names and values of `members` as character sequences.
pub open spec fn member_views(members: Seq<(String, String)>) -> Seq<(Seq<char>, Seq<char>)> {
    members.map_values(|m: (String, String)| (m.0@, m.1@))
}

/// No name occurs twice in `s`.
pub open spec fn names_distinct(s: Seq<(Seq<char>, Seq<char>)>) -> bool {
    forall|i: int, j: int| 0 <= i < j < s.len() ==> s[i].0 != s[j].0
}

/// The index of the member named `name`.
pub open spec fn member_index(s: Seq<(Seq<char>, Seq<char>)>, name: Seq<char>) -> Option<int>
    decreases s.len(),
{
    if s.len() == 0 {
        None
    } else if s[0].0 == name {
        Some(0)
    } else {
        match member_index(s.drop_first(), name) {
            Some(i) => Some(i + 1),
            None => None,
        }
    }
}

/// The value of the member named `name`.
pub open spec fn member_value(s: Seq<(Seq<char>, Seq<char>)>, name: Seq<char>) -> Option<Seq<char>> {
    match member_index(s, name) {
        Some(i) => Some(s[i].1),
        None => None,
    }
}

/// The members after adding `name` with `value`: an existing member of that name gets the new
/// value in place, otherwise the member is appended.
pub open spec fn add_member_model(
    s: Seq<(Seq<char>, Seq<char>)>,
    name: Seq<char>,
    value: Seq<char>,
) -> Seq<(Seq<char>, Seq<char>)> {
    match member_index(s, name) {
        Some(i) => s.update(i, (name, value)),
        None => s.push((name, value)),
    }
}

/// Where `member_index` points, and that it is `None` only when no member has the name.
pub proof fn lemma_member_index(s: Seq<(Seq<char>, Seq<char>)>, name: Seq<char>)
    ensures
        member_index(s, name) matches Some(i) ==> 0 <= i < s.len() && s[i].0 == name
            && forall|k: int| 0 <= k < i ==> s[k].0 != name,
        member_index(s, name) is None ==> forall|k: int| 0 <= k < s.len() ==> s[k].0 != name,
    decreases s.len(),
{
    if s.len() > 0 {
        lemma_member_index(s.drop_first(), name);
        if s[0].0 != name {
            assert forall|k: int| 1 <= k < s.len() implies s[k] == s.drop_first()[k - 1] by {}
        }
    }
}

/// Adding keeps the names distinct, and afterwards the name has the value that was added while
/// every other name keeps its value.
pub proof fn lemma_add_member(s: Seq<(Seq<char>, Seq<char>)>, name: Seq<char>, value: Seq<char>)
    requires
        names_distinct(s),
    ensures
        names_distinct(add_member_model(s, name, value)),
        member_value(add_member_model(s, name, value), name) == Some(value),
        forall|other: Seq<char>|
            other != name ==> member_value(add_member_model(s, name, value), other)
                == member_value(s, other),
        add_member_model(s, name, value).len() == s.len() + (if member_index(s, name) is Some {
            0int
        } else {
            1int
        }),
{
    let t = add_member_model(s, name, value);
    lemma_member_index(s, name);
    match member_index(s, name) {
        Some(i) => {
            assert(t[i] == (name, value));
        },
        None => {
            assert(t[s.len() as int] == (name, value));
        },
    }
    assert(names_distinct(t));
    lemma_member_index(t, name);
    if member_index(t, name) is Some {
        let k = member_index(t, name)->0;
        match member_index(s, name) {
            Some(i) => {
                if k != i {
                    assert(t[k].0 == t[i].0);
                }
            },
            None => {
                if k != s.len() {
                    assert(t[k].0 == t[s.len() as int].0);
                }
            },
        }
    }
    assert forall|other: Seq<char>| other != name implies member_value(t, other) == member_value(
        s,
        other,
    ) by {
        lemma_member_index(s, other);
        lemma_member_index(t, other);
        match member_index(s, other) {
            Some(i) => {
                assert(t[i].0 == other);
                let k = member_index(t, other)->0;
                if k != i {
                    assert(t[k].0 == t[i].0);
                }
            },
            None => {
                if member_index(t, other) is Some {
                    let k = member_index(t, other)->0;
                    assert(t[k].0 == other);
                    if k < s.len() {
                        assert(s[k].0 == other);
                    }
                }
            },
        }
    }
}

impl View for ExtensionMembers {
    type V = Seq<(Seq<char>, Seq<char>)>;

    closed spec fn view(&self) -> Seq<(Seq<char>, Seq<char>)> {
        member_views(self.members@)
    }
}

impl ExtensionMembers {
    #[verifier::type_invariant]
    spec fn names_are_distinct(&self) -> bool {
        names_distinct(member_views(self.members@))
    }

    /// No extension members.
    pub fn new() -> (r: ExtensionMembers)
        ensures
            r@ == Seq::<(Seq<char>, Seq<char>)>::empty(),
    {
        let r = ExtensionMembers { members: Vec::new() };
        assert(r@ =~= Seq::<(Seq<char>, Seq<char>)>::empty());
        r
    }

    /// The number of members.
    pub fn count(&self) -> (r: usize)
        ensures
            r == self@.len(),
    {
        self.members.len()
    }

    /// The JSON text of the member named `name`.
    pub fn get(&self, name: &str) -> (r: Option<&str>)
        ensures
            match member_value(self@, name@) {
                Some(v) => r matches Some(t) && t@ == v,
                None => r is None,
            },
    {
        proof {
            use_type_invariant(self);
            lemma_member_index(self@, name@);
        }
        let mut i: usize = 0;
        while i < self.members.len()
            invariant
                i <= self.members@.len(),
                self@ == member_views(self.members@),
                names_distinct(self@),
                forall|k: int| 0 <= k < i ==> self@[k].0 != name@,
                member_index(self@, name@) matches Some(j) ==> 0 <= j < self@.len() && self@[j].0
                    == name@,
                member_index(self@, name@) is None ==> forall|k: int|
                    0 <= k < self@.len() ==> self@[k].0 != name@,
            decreases self.members@.len() - i,
        {
            if str_eq(self.members[i].0.as_str(), name) {
                proof {
                    let j = member_index(self@, name@)->0;
                    if j != i {
                        assert(self@[j].0 == self@[i as int].0);
                    }
                }
                return Some(self.members[i].1.as_str());
            }
            i = i + 1;
        }
        None
    }

    /// The member at `index`, as its name and the JSON text of its value.
    pub fn member(&self, index: usize) -> (r: Option<(&str, &str)>)
        ensures
            index < self@.len() ==> (r matches Some(m) && m.0@ == self@[index as int].0 && m.1@
                == self@[index as int].1),
            index >= self@.len() ==> r is None,
    {
        if index < self.members.len() {
            Some((self.members[index].0.as_str(), self.members[index].1.as_str()))
        } else {
            None
        }
    }

    /// Adds the member `name` with the JSON text `value`, replacing the value of a member that
    /// already has that name.
    pub fn add(&mut self, name: String, value: String)
        ensures
            final(self)@ == add_member_model(old(self)@, name@, value@),
    {
        proof {
            use_type_invariant(&*self);
            lemma_member_index(self@, name@);
            lemma_add_member(self@, name@, value@);
        }
        let ghost old_members = self@;
        let mut i: usize = 0;
        while i < self.members.len()
            invariant
                i <= self.members@.len(),
                self@ == old_members,
                old_members == old(self)@,
                self@ == member_views(self.members@),
                names_distinct(self@),
                forall|k: int| 0 <= k < i ==> self@[k].0 != name@,
                member_index(self@, name@) matches Some(j) ==> 0 <= j < self@.len() && self@[j].0
                    == name@,
                member_index(self@, name@) is None ==> forall|k: int|
                    0 <= k < self@.len() ==> self@[k].0 != name@,
                names_distinct(add_member_model(self@, name@, value@)),
            decreases self.members@.len() - i,
        {
            if str_eq(self.members[i].0.as_str(), name.as_str()) {
                proof {
                    let j = member_index(self@, name@)->0;
                    if j != i {
                        assert(self@[j].0 == self@[i as int].0);
                    }
                }
                let ghost before = self.members@;
                let mut members: Vec<(String, String)> = Vec::new();
                std::mem::swap(&mut members, &mut self.members);
                members.set(i, (name, value));
                proof {
                    assert(member_views(members@) =~= add_member_model(old_members, name@, value@));
                }
                self.members = members;
                return;
            }
            i = i + 1;
        }
        let mut members: Vec<(String, String)> = Vec::new();
        std::mem::swap(&mut members, &mut self.members);
        members.push((name, value));
        proof {
            assert(member_views(members@) =~= add_member_model(old_members, name@, value@));
        }
        self.members = members;
    }
}

impl Clone for ExtensionMembers {
    fn clone(&self) -> (r: ExtensionMembers)
        ensures
            r@ == self@,
    {
        proof {
            use_type_invariant(self);
        }
        let mut members: Vec<(String, String)> = Vec::new();
        let mut i: usize = 0;
        while i < self.members.len()
            invariant
                i <= self.members@.len(),
                members@.len() == i,
                forall|k: int| 0 <= k < i ==> #[trigger] members@[k] == self.members@[k],
            decreases self.members@.len() - i,
        {
            let name = self.members[i].0.clone();
            let value = self.members[i].1.clone();
            members.push((name, value));
            i = i + 1;
        }
        assert(members@ =~= self.members@);
        ExtensionMembers { members }
    }
}

/// A problem details object for the problem type `T`.
#[derive(Debug, Clone)]
pub struct ProblemDetails<T> {
    detail: Option<String>,
    instance: Option<String>,
    extension_members: ExtensionMembers,
    problem_type: T,
}

/// The character sequence in an optional string.
pub open spec fn opt_view(s: Option<String>) -> Option<Seq<char>> {
    match s {
        Some(t) => Some(t@),
        None => None,
    }
}

impl<T> ProblemDetails<T> {
    /// The "detail" member, if it is set.
    pub closed spec fn detail_view(&self) -> Option<Seq<char>> {
        opt_view(self.detail)
    }

    /// The "instance" member, if it is set.
    pub closed spec fn instance_view(&self) -> Option<Seq<char>> {
        opt_view(self.instance)
    }

    /// The extension members.
    pub closed spec fn members_view(&self) -> Seq<(Seq<char>, Seq<char>)> {
        self.extension_members@
    }

    /// The problem type.
    pub closed spec fn problem_type_view(&self) -> T {
        self.problem_type
    }

    /// A problem details object for `problem_type`, with no detail, no instance and no
    /// extension members.
    pub fn new(problem_type: T) -> (r: ProblemDetails<T>)
        ensures
            r.problem_type_view() == problem_type,
            r.detail_view() is None,
            r.instance_view() is None,
            r.members_view() == Seq::<(Seq<char>, Seq<char>)>::empty(),
    {
        ProblemDetails {
            detail: None,
            instance: None,
            extension_members: ExtensionMembers::new(),
            problem_type,
        }
    }

    /// The problem type.
    pub fn problem_type(&self) -> (r: &T)
        ensures
            *r == self.problem_type_view(),
    {
        &self.problem_type
    }

    /// The problem type, for changing it.
    pub fn problem_type_mut(&mut self) -> (r: &mut T)
        ensures
            *r == old(self).problem_type_view(),
            final(self).problem_type_view() == *final(r),
            final(self).detail_view() == old(self).detail_view(),
            final(self).instance_view() == old(self).instance_view(),
            final(self).members_view() == old(self).members_view(),
    {
        &mut self.problem_type
    }

    /// The "detail" member, if it is set.
    pub fn detail(&self) -> (r: Option<&str>)
        ensures
            match self.detail_view() {
                Some(d) => r matches Some(t) && t@ == d,
                None => r is None,
            },
    {
        match &self.detail {
            Some(d) => Some(d.as_str()),
            None => None,
        }
    }

    /// The "instance" member, if it is set.
    pub fn instance(&self) -> (r: Option<&str>)
        ensures
            match self.instance_view() {
                Some(d) => r matches Some(t) && t@ == d,
                None => r is None,
            },
    {
        match &self.instance {
            Some(d) => Some(d.as_str()),
            None => None,
        }
    }

    /// The extension members.
    pub fn extension_members(&self) -> (r: &ExtensionMembers)
        ensures
            r@ == self.members_view(),
    {
        &self.extension_members
    }

    /// The extension members, for changing them.
    pub fn extension_members_mut(&mut self) -> (r: &mut ExtensionMembers)
        ensures
            r@ == old(self).members_view(),
            final(self).members_view() == final(r)@,
            final(self).problem_type_view() == old(self).problem_type_view(),
            final(self).detail_view() == old(self).detail_view(),
            final(self).instance_view() == old(self).instance_view(),
    {
        &mut self.extension_members
    }

    /// Sets the "detail" member.
    pub fn set_detail(&mut self, detail: String)
        ensures
            final(self).detail_view() == Some(detail@),
            final(self).instance_view() == old(self).instance_view(),
            final(self).members_view() == old(self).members_view(),
            final(self).problem_type_view() == old(self).problem_type_view(),
    {
        self.detail = Some(detail);
    }

    /// Sets the "instance" member.
    pub fn set_instance(&mut self, instance: String)
        ensures
            final(self).instance_view() == Some(instance@),
            final(self).detail_view() == old(self).detail_view(),
            final(self).members_view() == old(self).members_view(),
            final(self).problem_type_view() == old(self).problem_type_view(),
    {
        self.instance = Some(instance);
    }

    /// Adds the extension member `name` with the JSON text `value`, replacing the value of a
    /// member that already has that name.
    pub fn add_extension(&mut self, name: String, value: String)
        ensures
            final(self).members_view() == add_member_model(old(self).members_view(), name@, value@),
            final(self).detail_view() == old(self).detail_view(),
            final(self).instance_view() == old(self).instance_view(),
            final(self).problem_type_view() == old(self).problem_type_view(),
    {
        self.extension_members.add(name, value);
    }

    /// The number of members a serialized object has: "type", "status" and "title", the
    /// detail and the instance where they are set, and the extension members.
    pub fn field_count(&self) -> (r: usize)
        requires
            self.members_view().len() + 5 <= usize::MAX,
        ensures
            r == 3 + (if self.detail_view() is Some {
                1int
            } else {
                0int
            }) + (if self.instance_view() is Some {
                1int
            } else {
                0int
            }) + self.members_view().len(),
    {
        let mut n: usize = 3;
        if self.detail.is_some() {
            n = n + 1;
        }
        if self.instance.is_some() {
            n = n + 1;
        }
        n + self.extension_members.count()
    }
}

/// Adding an extension member and then reading it gives back the value added, other members
/// keep theirs, and the names stay distinct.
pub proof fn law_extension_read_after_add(
    s: Seq<(Seq<char>, Seq<char>)>,
    name: Seq<char>,
    value: Seq<char>,
    other: Seq<char>,
)
    requires
        names_distinct(s),
    ensures
        member_value(add_member_model(s, name, value), name) == Some(value),
        other != name ==> member_value(add_member_model(s, name, value), other) == member_value(
            s,
            other,
        ),
        names_distinct(add_member_model(s, name, value)),
{
    lemma_add_member(s, name, value);
}

/// Adding a member under a name that is already there does not change the number of members;
/// adding it under a new name adds one.
pub proof fn law_extension_count_after_add(
    s: Seq<(Seq<char>, Seq<char>)>,
    name: Seq<char>,
    value: Seq<char>,
)
    requires
        names_distinct(s),
    ensures
        member_value(s, name) is Some ==> add_member_model(s, name, value).len() == s.len(),
        member_value(s, name) is None ==> add_member_model(s, name, value).len() == s.len() + 1,
{
    lemma_add_member(s, name, value);
}

} // verus!
