//! The ingest of a veteran list: which uploads are taken, which account they go
//! to, and what they change in the store.

use std::collections::HashSet;

use vstd::prelude::*;
use vstd::string::StringExecFns;

use crate::errors::AppError;
use crate::models::VeteranCharacter;
use crate::text::{format_decimal, format_digits, join, text_eq};

verus! {

broadcast use vstd::std_specs::hash::group_hash_axioms;

/// The most veterans that one account can have.
pub const MAX_VETERANS: usize = 512;

/// The ids of a list of characters, in order.
pub open spec fn ids(characters: Seq<VeteranCharacter>) -> Seq<i64> {
    characters.map_values(|c: VeteranCharacter| c.trained_chara_id)
}

/// Whether the id at a place stands earlier in the list too.
pub open spec fn repeats_at(ids: Seq<i64>, i: int) -> bool {
    0 <= i < ids.len() && exists|j: int| 0 <= j < i && #[trigger] ids[j] == ids[i]
}

/// Whether a place is the first at which an id stands a second time.
pub open spec fn first_repeat_at(ids: Seq<i64>, i: int) -> bool {
    repeats_at(ids, i) && forall|j: int| 0 <= j < i ==> !repeats_at(ids, j)
}

/// Whether a list is one that can be ingested: neither empty nor too long, and
/// without an id that stands twice.
pub open spec fn acceptable(characters: Seq<VeteranCharacter>) -> bool {
    &&& 0 < characters.len() <= MAX_VETERANS
    &&& ids(characters).no_duplicates()
}

/// What the client is told about a list that cannot be ingested.
pub open spec fn list_refusal(characters: Seq<VeteranCharacter>) -> Seq<char> {
    if characters.len() == 0 {
        "Veteran list must not be empty"@
    } else if characters.len() > MAX_VETERANS {
        "Upload contains "@ + crate::text::decimal(characters.len() as int)
            + " characters; maximum allowed is "@ + crate::text::decimal(MAX_VETERANS as int)
    } else {
        let i = choose|i: int| first_repeat_at(ids(characters), i);
        "Duplicate trained_chara_id "@ + crate::text::decimal(ids(characters)[i] as int)
            + " in upload"@
    }
}

/// Finds the first place at which an id stands a second time.
fn find_repeat(characters: &Vec<VeteranCharacter>) -> (r: Option<usize>)
    ensures
        match r {
            Some(i) => first_repeat_at(ids(characters@), i as int),
            None => ids(characters@).no_duplicates(),
        },
{
    let mut seen: HashSet<i64> = HashSet::with_capacity(characters.len());
    let ghost all = ids(characters@);
    let mut i: usize = 0;
    while i < characters.len()
        invariant
            i <= characters.len(),
            all == ids(characters@),
            forall|id: i64| #[trigger] seen@.contains(id) <==> exists|j: int|
                0 <= j < i && #[trigger] all[j] == id,
            forall|j: int| 0 <= j < i ==> !repeats_at(all, j),
        decreases characters.len() - i,
    {
        let id: i64 = characters[i].trained_chara_id;
        assert(all[i as int] == id);
        if !seen.insert(id) {
            return Some(i);
        }
        assert(!repeats_at(all, i as int));
        i = i + 1;
    }
    assert(all.no_duplicates()) by {
        assert forall|a: int, b: int| 0 <= a < b < all.len() implies all[a] != all[b] by {
            assert(!repeats_at(all, b));
        }
    }
    None
}

/// An uploaded veteran list that can be ingested.
#[derive(Debug)]
pub struct VeteranUpload {
    characters: Vec<VeteranCharacter>,
}

impl View for VeteranUpload {
    type V = Seq<VeteranCharacter>;

    closed spec fn view(&self) -> Seq<VeteranCharacter> {
        self.characters@
    }
}

impl VeteranUpload {
    #[verifier::type_invariant]
    spec fn well_formed(self) -> bool {
        acceptable(self.characters@)
    }

    /// Takes a list that can be ingested and refuses any other.
    pub fn accept(characters: Vec<VeteranCharacter>) -> (r: Result<VeteranUpload, AppError>)
        ensures
            match r {
                Ok(upload) => acceptable(characters@) && upload@ == characters@,
                Err(error) => !acceptable(characters@) && error@
                    == crate::errors::Refusal::BadRequest(list_refusal(characters@)),
            },
    {
        if characters.len() == 0 {
            return Err(AppError::BadRequest("Veteran list must not be empty".to_owned()));
        }
        if characters.len() > MAX_VETERANS {
            let mut message = "Upload contains ".to_owned();
            message.append(format_digits(characters.len() as u64).as_str());
            message.append(" characters; maximum allowed is ");
            message.append(format_digits(MAX_VETERANS as u64).as_str());
            return Err(AppError::BadRequest(message));
        }
        if let Some(i) = find_repeat(&characters) {
            let id: i64 = characters[i].trained_chara_id;
            let mut message = "Duplicate trained_chara_id ".to_owned();
            message.append(format_decimal(id).as_str());
            message.append(" in upload");
            proof {
                let all = ids(characters@);
                assert(all[i as int] == id);
                let k = choose|k: int| first_repeat_at(all, k);
                assert(first_repeat_at(all, k));
                assert(k == i as int) by {
                    assert(k < i ==> !repeats_at(all, k));
                    assert(i < k ==> !repeats_at(all, i as int));
                }
                let j = choose|j: int| 0 <= j < i && #[trigger] all[j] == all[i as int];
                assert(!all.no_duplicates());
            }
            return Err(AppError::BadRequest(message));
        }
        Ok(VeteranUpload { characters })
    }

    /// The characters of the list.
    pub fn characters(&self) -> (r: &Vec<VeteranCharacter>)
        ensures
            r@ == self@,
            acceptable(self@),
    {
        proof {
            use_type_invariant(self);
        }
        &self.characters
    }
}

/// The account that an upload goes to, or why there is none: the requested account
/// where the user has it among the verified ones, the only verified account where
/// none is requested.
pub open spec fn account_choice(
    verified: Seq<Seq<char>>,
    requested: Option<Seq<char>>,
) -> Result<Seq<char>, crate::errors::Refusal> {
    if verified.len() == 0 {
        Err(
            crate::errors::Refusal::Forbidden(
                "No verified linked account. Link and verify your trainer account first."@,
            ),
        )
    } else if let Some(account) = requested {
        if verified.contains(account) {
            Ok(account)
        } else {
            Err(
                crate::errors::Refusal::Forbidden(
                    "Requested account_id is not verified for this user."@,
                ),
            )
        }
    } else if verified.len() == 1 {
        Ok(verified[0])
    } else {
        Err(
            crate::errors::Refusal::BadRequest(
                "Multiple verified accounts found. Specify ?account_id= with one of: "@
                    + crate::text::joined(verified, ", "@),
            ),
        )
    }
}

/// Resolves the account of an upload from the user's verified accounts and the
/// account that the request asks for.
pub fn resolve_account_id(verified: Vec<String>, requested: Option<&str>) -> (r: Result<
    String,
    AppError,
>)
    ensures
        account_choice(
            crate::text::texts(verified@),
            crate::text::optional_text(requested),
        ) == (match r {
            Ok(account) => Ok(account@),
            Err(error) => Err(error@),
        }),
{
    let ghost all = crate::text::texts(verified@);
    if verified.len() == 0 {
        return Err(
            AppError::Forbidden(
                "No verified linked account. Link and verify your trainer account first.".to_owned(),
            ),
        );
    }
    if let Some(account) = requested {
        let mut i: usize = 0;
        while i < verified.len()
            invariant
                i <= verified.len(),
                all == crate::text::texts(verified@),
                all.len() > 0,
                requested == Some(account),
                forall|j: int| 0 <= j < i ==> all[j] != account@,
            decreases verified.len() - i,
        {
            if text_eq(verified[i].as_str(), account) {
                assert(all[i as int] == account@);
                return Ok(account.to_owned());
            }
            i = i + 1;
        }
        return Err(
            AppError::Forbidden("Requested account_id is not verified for this user.".to_owned()),
        );
    }
    if verified.len() == 1 {
        return Ok(verified[0].clone());
    }
    let mut message =
        "Multiple verified accounts found. Specify ?account_id= with one of: ".to_owned();
    message.append(join(&verified, ", ").as_str());
    Err(AppError::BadRequest(message))
}

/// An upload only ever goes to an account that the user has verified.
pub proof fn law_account_is_verified(verified: Seq<Seq<char>>, requested: Option<Seq<char>>)
    ensures
        account_choice(verified, requested) matches Ok(account) ==> verified.contains(account),
        requested matches Some(account) ==> (verified.contains(account) <==> account_choice(
            verified,
            requested,
        ) is Ok),
        requested is None ==> (account_choice(verified, requested) is Ok <==> verified.len() == 1),
{
}

} // verus!
