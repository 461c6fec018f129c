use vstd::prelude::*;
use crate::auth::{issued_for, password_hash_of};
use crate::ids::is_hyphenated_uuid;
use crate::errors::{DomainError, RecipeError};
use crate::interactor::{update_outcome, delete_outcome};
use crate::json::JsonView;
use crate::parser::{
    is_candidate, first_candidate, recipe_of_documents, page_documents, string_field, item_text, texts_of,
};
use crate::recipe::RecipeView;
use crate::schema::{signed_up, signed_in};
use crate::store::{User, UserRecord, recipes_of, find_recipe, without, replaced, email_taken, has_credentials};

verus! {

/// A recipe stored for its owner is listed among the owner's recipes.
pub proof fn lemma_created_recipe_listed(s: Seq<RecipeView>, r: RecipeView)
    ensures
        recipes_of(s.push(r), r.user_id, None).contains(r),
{
    let l = recipes_of(s.push(r), r.user_id, None);
    assert(l.last() == r);
}

/// A listed recipe stays listed while other recipes are inserted, replaced
/// or deleted; only the deletion of its own id removes it.
pub proof fn lemma_listed_until_deleted(s: Seq<RecipeView>, r: RecipeView, other: RecipeView, id: Seq<char>)
    requires
        recipes_of(s, r.user_id, None).contains(r),
    ensures
        recipes_of(s.push(other), r.user_id, None).contains(r),
        other.id != r.id ==> recipes_of(replaced(s, other), r.user_id, None).contains(r),
        id != r.id ==> recipes_of(without(s, id), r.user_id, None).contains(r),
        !recipes_of(without(s, r.id), r.user_id, None).contains(r),
{
    let u = r.user_id;
    assert(s.push(other).drop_last() =~= s);
    let l = recipes_of(s, u, None);
    let i = choose|i: int| 0 <= i < l.len() && l[i] == r;
    lemma_listed_in_replaced(s, r, other);
    lemma_listed_in_without(s, r, id);
    lemma_without_drops(s, r.id, u);
    if u == other.user_id {
        assert(recipes_of(s.push(other), u, None)[i] == r);
    }
}

proof fn lemma_listed_in_replaced(s: Seq<RecipeView>, r: RecipeView, other: RecipeView)
    requires
        recipes_of(s, r.user_id, None).contains(r),
    ensures
        other.id != r.id ==> recipes_of(replaced(s, other), r.user_id, None).contains(r),
    decreases s.len(),
{
    if s.len() > 0 && other.id != r.id {
        let u = r.user_id;
        let t = replaced(s, other);
        assert(t.drop_last() =~= replaced(s.drop_last(), other));
        let l = recipes_of(s, u, None);
        let rest = recipes_of(s.drop_last(), u, None);
        let i = choose|i: int| 0 <= i < l.len() && l[i] == r;
        if s.last() == r {
            assert(recipes_of(t, u, None).last() == r);
        } else {
            lemma_listed_in_replaced(s.drop_last(), r, other);
            let rt = recipes_of(t.drop_last(), u, None);
            let k = choose|k: int| 0 <= k < rt.len() && rt[k] == r;
            if t.last().user_id != u {
                assert(recipes_of(t, u, None)[k] == r);
            }
        }
    }
}

proof fn lemma_listed_in_without(s: Seq<RecipeView>, r: RecipeView, id: Seq<char>)
    requires
        recipes_of(s, r.user_id, None).contains(r),
    ensures
        id != r.id ==> recipes_of(without(s, id), r.user_id, None).contains(r),
    decreases s.len(),
{
    if s.len() > 0 && id != r.id {
        let u = r.user_id;
        let w = without(s, id);
        let l = recipes_of(s, u, None);
        let rest = recipes_of(s.drop_last(), u, None);
        let i = choose|i: int| 0 <= i < l.len() && l[i] == r;
        if s.last() == r {
            assert(recipes_of(w, u, None).last() == r);
        } else {
            lemma_listed_in_without(s.drop_last(), r, id);
            let wr = without(s.drop_last(), id);
            let rw = recipes_of(wr, u, None);
            let k = choose|k: int| 0 <= k < rw.len() && rw[k] == r;
            if s.last().id != id {
                assert(w.drop_last() =~= wr);
                if s.last().user_id != u {
                    assert(recipes_of(w, u, None)[k] == r);
                }
            }
        }
    }
}

/// After the deletion of an id no recipe carries it.
pub proof fn lemma_deleted_recipe_gone(s: Seq<RecipeView>, id: Seq<char>)
    ensures
        forall|i: int| 0 <= i < without(s, id).len() ==> (#[trigger] without(s, id)[i]).id != id,
        find_recipe(without(s, id), id) is None,
    decreases s.len(),
{
    if s.len() > 0 {
        lemma_deleted_recipe_gone(s.drop_last(), id);
    }
    lemma_find_absent(without(s, id), id);
}

proof fn lemma_find_absent(s: Seq<RecipeView>, id: Seq<char>)
    requires
        forall|i: int| 0 <= i < s.len() ==> (#[trigger] s[i]).id != id,
    ensures
        find_recipe(s, id) is None,
    decreases s.len(),
{
    if s.len() > 0 {
        assert(forall|i: int| 0 <= i < s.drop_first().len() ==> (#[trigger] s.drop_first()[i]).id != id);
        lemma_find_absent(s.drop_first(), id);
    }
}

proof fn lemma_without_drops(s: Seq<RecipeView>, id: Seq<char>, u: Seq<char>)
    ensures
        forall|i: int| 0 <= i < recipes_of(without(s, id), u, None).len() ==> (#[trigger] recipes_of(without(s, id), u, None)[i]).id != id,
    decreases s.len(),
{
    lemma_deleted_recipe_gone(s, id);
    lemma_selection_keeps(without(s, id), id, u);
}

proof fn lemma_selection_keeps(s: Seq<RecipeView>, id: Seq<char>, u: Seq<char>)
    requires
        forall|i: int| 0 <= i < s.len() ==> (#[trigger] s[i]).id != id,
    ensures
        forall|i: int| 0 <= i < recipes_of(s, u, None).len() ==> (#[trigger] recipes_of(s, u, None)[i]).id != id,
    decreases s.len(),
{
    if s.len() > 0 {
        assert(forall|i: int| 0 <= i < s.drop_last().len() ==> (#[trigger] s.drop_last()[i]).id != id);
        lemma_selection_keeps(s.drop_last(), id, u);
    }
}

/// An accepted update keeps the recipe's id and owner, and the stored recipe
/// under that id becomes the update itself, sequences included.
pub proof fn lemma_update_keeps_identity(s: Seq<RecipeView>, new: RecipeView)
    requires
        update_outcome(s, new) is Ok,
    ensures
        find_recipe(s, new.id) matches Some(before) && before.id == new.id && before.user_id == new.user_id,
        find_recipe(replaced(s, new), new.id) == Some(new),
    decreases s.len(),
{
    lemma_find_has_id(s, new.id);
    if s.len() > 0 {
        let t = replaced(s, new);
        assert(t.drop_first() =~= replaced(s.drop_first(), new));
        if s[0].id != new.id {
            lemma_update_keeps_identity(s.drop_first(), new);
        }
    }
}

proof fn lemma_find_has_id(s: Seq<RecipeView>, id: Seq<char>)
    ensures
        find_recipe(s, id) matches Some(x) ==> x.id == id,
    decreases s.len(),
{
    if s.len() > 0 {
        lemma_find_has_id(s.drop_first(), id);
    }
}

/// An update or a deletion asked by someone other than the owner is refused
/// as not theirs.
pub proof fn lemma_not_owner_refused(s: Seq<RecipeView>, new: RecipeView, user_id: Seq<char>)
    requires
        find_recipe(s, new.id) matches Some(x) && x.user_id != new.user_id && x.user_id != user_id,
    ensures
        update_outcome(s, new) == Err::<RecipeView, DomainError>(DomainError::Recipe(RecipeError::RecipeDoNotbelongToUser)),
        delete_outcome(s, new.id, user_id) == Err::<(), DomainError>(DomainError::Recipe(RecipeError::RecipeDoNotbelongToUser)),
{
}

/// Once a user is stored with an address, that address is taken.
pub proof fn lemma_signup_takes_email(users: Seq<UserRecord>, rec: UserRecord)
    ensures
        email_taken(users.push(rec), rec.email),
{
    assert(users.push(rec)[users.len() as int] == rec);
}

/// After a signup, a second signup with the same address does not succeed.
pub proof fn lemma_second_signup_refused(
    before: Seq<UserRecord>,
    after: Seq<UserRecord>,
    email: Seq<char>,
    password: Seq<char>,
    token: Seq<char>,
    secret: Seq<u8>,
    later: Seq<UserRecord>,
    other_password: Seq<char>,
    other_token: Seq<char>,
)
    requires
        signed_up(before, after, email, password, token, secret),
    ensures
        !signed_up(after, later, email, other_password, other_token, secret),
{
    let id = choose|id: Seq<char>|
        {
            &&& is_hyphenated_uuid(id)
            &&& !email_taken(before, email)
            &&& after == before.push(UserRecord { id, email, password_hash: password_hash_of(password) })
            &&& #[trigger] issued_for(token, id, secret)
        };
    lemma_signup_takes_email(before, UserRecord { id, email, password_hash: password_hash_of(password) });
}

/// The token of a signup and the token of a signin with the same address and
/// password are issued for the same user.
pub proof fn lemma_signin_after_signup_same_user(
    before: Seq<UserRecord>,
    after: Seq<UserRecord>,
    email: Seq<char>,
    password: Seq<char>,
    first: Seq<char>,
    second: Seq<char>,
    secret: Seq<u8>,
)
    requires
        signed_up(before, after, email, password, first, secret),
        signed_in(after, email, password, second, secret),
    ensures
        exists|id: Seq<char>| #[trigger] issued_for(first, id, secret) && issued_for(second, id, secret),
{
    let id = choose|id: Seq<char>|
        {
            &&& is_hyphenated_uuid(id)
            &&& !email_taken(before, email)
            &&& after == before.push(UserRecord { id, email, password_hash: password_hash_of(password) })
            &&& #[trigger] issued_for(first, id, secret)
        };
    let u = choose|u: User|
        has_credentials(after, email, password_hash_of(password), u) && #[trigger] issued_for(second, u.id@, secret);
    let i = choose|i: int|
        0 <= i < after.len() && (#[trigger] after[i]).email == email && after[i].password_hash == password_hash_of(password)
            && after[i].id == u.id@ && u.email@ == email;
}

/// A password whose hash is not stored with the address does not sign in.
pub proof fn lemma_wrong_password_refused(users: Seq<UserRecord>, email: Seq<char>, wrong: Seq<char>)
    requires
        forall|i: int|
            0 <= i < users.len() && (#[trigger] users[i]).email == email ==> users[i].password_hash != password_hash_of(wrong),
    ensures
        forall|u: User| !has_credentials(users, email, password_hash_of(wrong), u),
{
}

/// Whether a parsed document is invalid JSON or describes no recipe.
pub open spec fn describes_no_recipe(b: Option<JsonView>) -> bool {
    match b {
        Some(v) => !is_candidate(v),
        None => true,
    }
}

/// A page none of whose JSON-LD documents describes a recipe is not supported.
pub proof fn lemma_no_recipe_not_supported(url: Seq<char>, user_id: Seq<char>, id: Seq<char>, blocks: Seq<Option<JsonView>>)
    requires
        forall|i: int| 0 <= i < blocks.len() ==> describes_no_recipe(#[trigger] blocks[i]),
    ensures
        recipe_of_documents(url, user_id, id, blocks) == Err::<RecipeView, RecipeError>(RecipeError::RecipeImportedWebsiteNotSupported),
{
    lemma_no_candidate(blocks);
}

/// Importing a page none of whose JSON-LD scripts holds a recipe document
/// is refused as not supported.
pub proof fn lemma_page_without_recipe_not_supported(url: Seq<char>, user_id: Seq<char>, id: Seq<char>, html: Seq<char>)
    requires
        forall|i: int| 0 <= i < page_documents(html).len() ==> describes_no_recipe(#[trigger] page_documents(html)[i]),
    ensures
        recipe_of_documents(url, user_id, id, page_documents(html)) == Err::<RecipeView, RecipeError>(RecipeError::RecipeImportedWebsiteNotSupported),
{
    lemma_no_recipe_not_supported(url, user_id, id, page_documents(html));
}

/// An imported recipe has a non-empty title, and non-empty instructions and
/// ingredients.
pub proof fn lemma_imported_texts_non_empty(url: Seq<char>, user_id: Seq<char>, id: Seq<char>, blocks: Seq<Option<JsonView>>)
    requires
        recipe_of_documents(url, user_id, id, blocks) is Ok,
    ensures
        recipe_of_documents(url, user_id, id, blocks)->Ok_0.title.len() > 0,
        forall|i: int|
            0 <= i < recipe_of_documents(url, user_id, id, blocks)->Ok_0.instructions.len()
                ==> (#[trigger] recipe_of_documents(url, user_id, id, blocks)->Ok_0.instructions[i]).len() > 0,
        forall|i: int|
            0 <= i < recipe_of_documents(url, user_id, id, blocks)->Ok_0.ingredients.len()
                ==> (#[trigger] recipe_of_documents(url, user_id, id, blocks)->Ok_0.ingredients[i]).len() > 0,
{
    assert forall|v: Option<JsonView>| #[trigger] string_field(v) matches Some(t) ==> t.len() > 0 by {}
    assert forall|v: Option<JsonView>, b: bool| #[trigger] texts_of(v, b) matches Some(ts) ==> forall|i: int|
        0 <= i < ts.len() ==> (#[trigger] ts[i]).len() > 0 by {
        if let Some(JsonView::Array(a)) = v {
            let t = a.map_values(|x: JsonView| item_text(x, b));
            assert forall|i: int| 0 <= i < t.len() implies (#[trigger] t[i]) matches Some(x) ==> x.len() > 0 by {
                assert(t[i] == item_text(a[i], b));
            }
        }
    }
}

proof fn lemma_no_candidate(blocks: Seq<Option<JsonView>>)
    requires
        forall|i: int| 0 <= i < blocks.len() ==> describes_no_recipe(#[trigger] blocks[i]),
    ensures
        first_candidate(blocks) is None,
    decreases blocks.len(),
{
    if blocks.len() > 0 {
        assert(forall|i: int| 0 <= i < blocks.drop_first().len() ==> describes_no_recipe(#[trigger] blocks.drop_first()[i]));
        lemma_no_candidate(blocks.drop_first());
    }
}

} // verus!
