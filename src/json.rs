use vstd::prelude::*;

verus! {

/// A JSON document as a tree: the form in which keymaps are stored.
///
/// Numbers are integers; an object keeps its members in order.
#[derive(Debug, PartialEq, Eq)]
pub enum Json {
    Null,
    Bool(bool),
    Num(i128),
    Str(String),
    Arr(Vec<Json>),
    Obj(Vec<Member>),
}

/// A named member of a JSON object.
#[derive(Debug, PartialEq, Eq)]
pub struct Member {
    pub name: String,
    pub value: Json,
}

/// The mathematical value of a `Member`.
pub struct MemberView {
    pub name: Seq<char>,
    pub value: JsonView,
}

/// The mathematical value of a `Json` tree.
pub enum JsonView {
    Null,
    Bool(bool),
    Num(int),
    Str(Seq<char>),
    Arr(Seq<JsonView>),
    Obj(Seq<MemberView>),
}

impl View for Json {
    type V = JsonView;

    open spec fn view(&self) -> JsonView
        decreases self,
    {
        match self {
            Json::Null => JsonView::Null,
            Json::Bool(b) => JsonView::Bool(*b),
            Json::Num(n) => JsonView::Num(*n as int),
            Json::Str(s) => JsonView::Str(s@),
            Json::Arr(items) => JsonView::Arr(
                Seq::new(
                    items.len() as nat,
                    |i: int|
                        if 0 <= i < items.len() {
                            items[i].view()
                        } else {
                            JsonView::Null
                        },
                ),
            ),
            Json::Obj(members) => JsonView::Obj(
                Seq::new(
                    members.len() as nat,
                    |i: int|
                        if 0 <= i < members.len() {
                            MemberView { name: members[i].name@, value: members[i].value.view() }
                        } else {
                            MemberView { name: Seq::empty(), value: JsonView::Null }
                        },
                ),
            ),
        }
    }
}

/// The values of a list of trees.
pub open spec fn items_view(items: Seq<Json>) -> Seq<JsonView> {
    items.map_values(|j: Json| j@)
}

/// The values of a list of object members.
pub open spec fn members_view(members: Seq<Member>) -> Seq<MemberView> {
    members.map_values(|m: Member| MemberView { name: m.name@, value: m.value@ })
}

/// The value of the first member named `name`.
pub open spec fn member(members: Seq<MemberView>, name: Seq<char>) -> Option<JsonView>
    decreases members.len(),
{
    if members.len() == 0 {
        None
    } else if members[0].name == name {
        Some(members[0].value)
    } else {
        member(members.drop_first(), name)
    }
}

/// An array's value is that of its items.
pub proof fn lemma_arr_view(items: Vec<Json>)
    ensures
        Json::Arr(items)@ == JsonView::Arr(items_view(items@)),
{
    let v = Json::Arr(items)@;
    assert(v is Arr);
    let s = v->Arr_0;
    assert(s.len() == items@.len());
    assert(forall|i: int| 0 <= i < s.len() ==> s[i] == items@[i]@);
    assert(s =~= items_view(items@));
}

/// An object's value is that of its members.
pub proof fn lemma_obj_view(members: Vec<Member>)
    ensures
        Json::Obj(members)@ == JsonView::Obj(members_view(members@)),
{
    let v = Json::Obj(members)@;
    assert(v is Obj);
    let s = v->Obj_0;
    assert(s.len() == members@.len());
    assert(forall|i: int| 0 <= i < s.len() ==> s[i] == (MemberView { name: members@[i].name@, value: members@[i].value@ }));
    assert(s =~= members_view(members@));
}

/// Whether two texts are equal.
pub fn text_eq(a: &str, b: &str) -> (r: bool)
    ensures
        r == (a@ == b@),
{
    let x: String = a.to_owned();
    let y: String = b.to_owned();
    x.eq(&y)
}

/// The first member of an object named `name`.
pub fn get_member<'a>(members: &'a Vec<Member>, name: &str) -> (r: Option<&'a Json>)
    ensures
        r matches Some(j) ==> member(members_view(members@), name@) == Some(j@),
        r is None ==> member(members_view(members@), name@) is None,
{
    let ghost all = members_view(members@);
    assert(all.subrange(0, all.len() as int) =~= all);
    let mut i: usize = 0;
    while i < members.len()
        invariant
            i <= members.len(),
            all == members_view(members@),
            member(all, name@) == member(all.subrange(i as int, all.len() as int), name@),
        decreases members.len() - i,
    {
        let ghost rest = all.subrange(i as int, all.len() as int);
        assert(rest[0] == (MemberView { name: members@[i as int].name@, value: members@[i as int].value@ }));
        assert(rest.drop_first() =~= all.subrange(i + 1, all.len() as int));
        if text_eq(members[i].name.as_str(), name) {
            return Some(&members[i].value);
        }
        i = i + 1;
    }
    assert(all.subrange(i as int, all.len() as int).len() == 0);
    None
}

} // verus!
