//! What is promised of an upload's way to an account.

use vstd::prelude::*;

use crate::errors::AppError;
use crate::ingest::VeteranUpload;
use crate::models::VeteranCharacter;

verus! {

/// A requested account is the one that is resolved, and it is resolved exactly where it
/// is one of the verified accounts.
pub proof fn law_requested_account_is_resolved(
    verified: Vec<String>,
    account: &str,
    r: Result<String, AppError>,
)
    requires
        call_ensures(crate::ingest::resolve_account_id, (verified, Some(account)), r),
    ensures
        r matches Ok(resolved) ==> resolved@ == account@,
        r is Ok <==> exists|i: int| 0 <= i < verified@.len() && #[trigger] verified@[i]@ == account@,
        r matches Err(error) ==> error is Forbidden,
        r matches Err(AppError::Forbidden(message)) ==> message@ == if verified@.len() == 0 {
            "No verified linked account. Link and verify your trainer account first."@
        } else {
            "Requested account_id is not verified for this user."@
        },
{
    let all = crate::text::texts(verified@);
    if exists|i: int| 0 <= i < verified@.len() && #[trigger] verified@[i]@ == account@ {
        let i = choose|i: int| 0 <= i < verified@.len() && #[trigger] verified@[i]@ == account@;
        assert(all[i] == account@);
        assert(all.contains(account@));
    }
    if all.contains(account@) {
        let i = all.index_of(account@);
        assert(verified@[i]@ == account@);
    }
}

/// Without a request the account is the only verified one; with none it is forbidden,
/// and with several of them the request lacks a choice.
pub proof fn law_only_account_is_resolved(verified: Vec<String>, r: Result<String, AppError>)
    requires
        call_ensures(crate::ingest::resolve_account_id, (verified, None), r),
    ensures
        r matches Ok(resolved) ==> verified@.len() == 1 && resolved@ == verified@[0]@,
        r is Ok <==> verified@.len() == 1,
        verified@.len() == 0 ==> (r matches Err(AppError::Forbidden(message)) && message@
            == "No verified linked account. Link and verify your trainer account first."@),
        verified@.len() > 1 ==> (r matches Err(AppError::BadRequest(message)) && message@
            == "Multiple verified accounts found. Specify ?account_id= with one of: "@
            + crate::text::joined(
            Seq::new(verified@.len(), |i: int| verified@[i]@),
            ", "@,
        )),
{
    assert(crate::text::texts(verified@) =~= Seq::new(verified@.len(), |i: int| verified@[i]@));
}

/// The choice of an account gives the requested one, and none that is not verified.
pub proof fn law_account_choice_is_the_requested_one(
    verified: Seq<Seq<char>>,
    requested: Option<Seq<char>>,
    account: Seq<char>,
)
    requires
        crate::ingest::account_choice(verified, requested) == Ok::<
            Seq<char>,
            crate::errors::Refusal,
        >(account),
    ensures
        requested matches Some(asked_for) ==> account == asked_for,
        verified.contains(account),
        requested is None ==> verified == seq![account],
{
    if requested is None {
        assert(verified =~= seq![account]);
    }
}

/// An upload is taken as it is, and exactly where it has from 1 to 512 characters of
/// which no two have one id.
pub proof fn law_accepted_upload(
    characters: Vec<VeteranCharacter>,
    r: Result<VeteranUpload, AppError>,
)
    requires
        call_ensures(VeteranUpload::accept, (characters,), r),
    ensures
        r matches Ok(upload) ==> upload@ == characters@,
        r is Ok <==> 1 <= characters@.len() <= 512 && forall|i: int, j: int|
            0 <= i < j < characters@.len() ==> (#[trigger] characters@[i]).trained_chara_id != (
            #[trigger] characters@[j]).trained_chara_id,
        r matches Err(error) ==> error is BadRequest,
{
    let all = crate::ingest::ids(characters@);
    assert(forall|i: int|
        0 <= i < characters@.len() ==> #[trigger] all[i] == characters@[i].trained_chara_id);
    if all.no_duplicates() {
        assert forall|i: int, j: int| 0 <= i < j < characters@.len() implies (
        #[trigger] characters@[i]).trained_chara_id != (
        #[trigger] characters@[j]).trained_chara_id by {
            assert(all[i] != all[j]);
        }
    } else if forall|i: int, j: int|
        0 <= i < j < characters@.len() ==> (#[trigger] characters@[i]).trained_chara_id != (
        #[trigger] characters@[j]).trained_chara_id {
        assert forall|i: int, j: int|
            0 <= i < all.len() && 0 <= j < all.len() && i != j implies all[i] != all[j] by {
            if i < j {
                assert(characters@[i].trained_chara_id != characters@[j].trained_chara_id);
            } else {
                assert(characters@[j].trained_chara_id != characters@[i].trained_chara_id);
            }
        }
    }
}

/// A list that is empty or too long is refused for that, with its length and the limit.
pub proof fn law_refused_length(characters: Vec<VeteranCharacter>, r: Result<VeteranUpload, AppError>)
    requires
        call_ensures(VeteranUpload::accept, (characters,), r),
        characters@.len() == 0 || characters@.len() > 512,
    ensures
        r matches Err(AppError::BadRequest(message)) && message@ == if characters@.len() == 0 {
            "Veteran list must not be empty"@
        } else {
            "Upload contains "@ + crate::text::decimal(characters@.len() as int)
                + " characters; maximum allowed is "@ + crate::text::decimal(512)
        },
{
}

/// A list that is refused for its ids is told an id that stands twice in it, the second
/// time at a place before which no id does.
pub proof fn law_refused_repeat(
    characters: Vec<VeteranCharacter>,
    r: Result<VeteranUpload, AppError>,
    i: int,
    j: int,
)
    requires
        call_ensures(VeteranUpload::accept, (characters,), r),
        characters@.len() <= 512,
        0 <= i < j < characters@.len(),
        characters@[i].trained_chara_id == characters@[j].trained_chara_id,
        forall|a: int, b: int|
            0 <= a < b < j ==> (#[trigger] characters@[a]).trained_chara_id != (
            #[trigger] characters@[b]).trained_chara_id,
    ensures
        r matches Err(AppError::BadRequest(message)) && message@ == "Duplicate trained_chara_id "@
            + crate::text::decimal(characters@[j].trained_chara_id as int) + " in upload"@,
{
    let all = crate::ingest::ids(characters@);
    assert(forall|k: int|
        0 <= k < characters@.len() ==> #[trigger] all[k] == characters@[k].trained_chara_id);
    assert(all[i] == all[j]);
    assert(!all.no_duplicates());
    assert(crate::ingest::repeats_at(all, j));
    assert forall|b: int| 0 <= b < j implies !crate::ingest::repeats_at(all, b) by {
        if crate::ingest::repeats_at(all, b) {
            let a = choose|a: int| 0 <= a < b && #[trigger] all[a] == all[b];
            assert(characters@[a].trained_chara_id == characters@[b].trained_chara_id);
        }
    }
    assert(crate::ingest::first_repeat_at(all, j));
    let k = choose|k: int| crate::ingest::first_repeat_at(all, k);
    assert(crate::ingest::first_repeat_at(all, k));
    assert(k < j ==> !crate::ingest::repeats_at(all, k));
    assert(j < k ==> !crate::ingest::repeats_at(all, j));
}

/// The characters of an upload are those that were taken, and fit to be ingested.
pub proof fn law_upload_characters(upload: VeteranUpload, r: &Vec<VeteranCharacter>)
    requires
        call_ensures(VeteranUpload::characters, (&upload,), r),
    ensures
        r@ == upload@,
        1 <= upload@.len() <= 512,
        forall|i: int, j: int|
            0 <= i < j < upload@.len() ==> (#[trigger] upload@[i]).trained_chara_id != (
            #[trigger] upload@[j]).trained_chara_id,
{
    let all = crate::ingest::ids(upload@);
    assert forall|i: int, j: int| 0 <= i < j < upload@.len() implies (
    #[trigger] upload@[i]).trained_chara_id != (#[trigger] upload@[j]).trained_chara_id by {
        assert(all[i] != all[j]);
    }
}

} // verus!
