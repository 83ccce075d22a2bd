//! What holds of SteamIDs across the functions of this module.

use vstd::prelude::*;

use crate::steam_id::account_number::account_number_of;
use crate::steam_id::bits::{
    lemma_pack_fields, lemma_unpack, pack, raw_account_number, raw_account_type, raw_instance,
    raw_universe, raw_y,
};
use crate::steam_id::universe::{lemma_name_of_code, universe_of_code};
use crate::steam_id::account_type::{account_type_of_code, law_account_type_of_letter, AccountType};
use crate::steam_id::{
    community_inner, community_model, community_string, from_u64_result, parse_model,
    standard_model, standard_string, standard_y, valid_raw, CommunityFailure, InvalidSteamId,
    StandardFailure,
};
use crate::text::{
    decimal_string, index_of, is_digit, starts_with, lemma_decimal_string, lemma_digits_index_of,
    lemma_parse_decimal_string, lemma_split_three, parse_unsigned, splitn3,
};

verus! {

/// `SteamId::from_u64` accepts exactly the valid SteamIDs, and keeps their value.
pub proof fn law_from_u64_accepts_valid(v: u64)
    ensures
        (from_u64_result(v) == Ok::<u64, InvalidSteamId>(v)) <==> valid_raw(v),
        from_u64_result(v) is Err <==> !valid_raw(v),
{
}

/// A SteamID built from parts in range reports those parts back.
pub proof fn law_built_parts(universe: u64, account_type: u64, instance: u64, account_number: u64, y: u64)
    requires
        universe <= 5,
        account_type <= 10,
        instance < 0x10_0000,
        account_number < 0x8000_0000,
        y < 2,
    ensures
        valid_raw(pack(universe, account_type, instance, account_number, y)),
        raw_universe(pack(universe, account_type, instance, account_number, y)) == universe,
        raw_account_type(pack(universe, account_type, instance, account_number, y)) == account_type,
        raw_instance(pack(universe, account_type, instance, account_number, y)) == instance,
        raw_account_number(pack(universe, account_type, instance, account_number, y)) == account_number,
        raw_y(pack(universe, account_type, instance, account_number, y)) == y,
{
    lemma_pack_fields(universe, account_type, instance, account_number, y);
}

/// The standard rendering of an individual SteamID with the default instance parses back to
/// that SteamID (the standard format carries neither the instance nor the account type).
pub proof fn law_parse_standard_of_display(v: u64)
    requires
        valid_raw(v),
        raw_instance(v) == 1,
        raw_account_type(v) == 1,
    ensures
        standard_model(standard_string(v)) == Ok::<u64, StandardFailure>(v),
{
    let u = raw_universe(v);
    let y = raw_y(v);
    let a = raw_account_number(v);
    lemma_unpack(v);
    let du = decimal_string(u as nat);
    let dy = decimal_string(y as nat);
    let da = decimal_string(a as nat);
    lemma_decimal_string(u as nat, 5);
    lemma_decimal_string(y as nat, 1);
    lemma_parse_decimal_string(a as nat, u32::MAX as int);
    lemma_decimal_string(a as nat, u32::MAX as int);
    assert(!is_digit(':'));
    lemma_digits_index_of(du, ':');
    lemma_digits_index_of(dy, ':');
    let s = standard_string(v);
    let body = du + seq![':'] + dy + seq![':'] + da;
    assert(s =~= "STEAM_"@ + body);
    assert(s.subrange(0, "STEAM_"@.len() as int) =~= "STEAM_"@);
    assert(s.subrange("STEAM_"@.len() as int, s.len() as int) =~= body);
    lemma_split_three(du, dy, da, ':');
    lemma_name_of_code(u);
    reveal_strlit("0");
    reveal_strlit("1");
    assert(dy =~= seq![crate::text::digit_char(y as int)]);
    if y == 0 {
        assert(dy =~= "0"@);
    } else {
        assert(dy =~= "1"@);
        assert(dy[0] != "0"@[0]);
    }
    assert(standard_y(Some(dy)) == Ok::<u64, StandardFailure>(y));
    assert(account_number_of(da) == Ok::<u32, crate::steam_id::account_number::ParseAccountNumberErrorReason>(a as u32));
    assert(universe_of_code(u)->0.code() == u);
}

/// Parsing tries the 64-bit integer form first: the decimal rendering of a value parses as
/// `SteamId::from_u64` of that value.
pub proof fn law_parse_of_decimal(v: u64)
    ensures
        parse_model(decimal_string(v as nat)) == (match from_u64_result(v) {
            Ok(x) => Ok::<u64, Option<InvalidSteamId>>(x),
            Err(e) => Err(Some(e)),
        }),
{
    lemma_parse_decimal_string(v as nat, u64::MAX as int);
}

/// The standard rendering of an individual SteamID with the default instance parses back to
/// it through the best-effort parser too.
pub proof fn law_parse_of_standard_display(v: u64)
    requires
        valid_raw(v),
        raw_instance(v) == 1,
        raw_account_type(v) == 1,
    ensures
        parse_model(standard_string(v)) == Ok::<u64, Option<InvalidSteamId>>(v),
{
    law_parse_standard_of_display(v);
    let s = standard_string(v);
    reveal_strlit("STEAM_");
    assert(s[0] == 'S');
    assert(parse_unsigned(s, u64::MAX as int) is Err) by {
        crate::text::lemma_scan_first_non_digit(s, u64::MAX as int);
    }
}

/// The community ID of the SteamID built from a community ID is that community ID.
pub proof fn law_community_id_of_from_community_id(c: u32)
    ensures
        raw_account_number(pack(1, 1, 1, (c / 2) as u64, (c % 2) as u64)) * 2 + raw_y(
            pack(1, 1, 1, (c / 2) as u64, (c % 2) as u64),
        ) == c,
{
    lemma_pack_fields(1, 1, 1, (c / 2) as u64, (c % 2) as u64);
}

/// An individual SteamID in the public universe with the default instance is the SteamID of
/// its own community ID.
pub proof fn law_from_community_id_of_community_id(v: u64)
    requires
        raw_universe(v) == 1,
        raw_account_type(v) == 1,
        raw_instance(v) == 1,
    ensures
        pack(
            1,
            1,
            1,
            ((raw_account_number(v) * 2 + raw_y(v)) / 2) as u64,
            ((raw_account_number(v) * 2 + raw_y(v)) % 2) as u64,
        ) == v,
{
    lemma_unpack(v);
}

/// The community rendering `[T:1:N]` of a SteamID in the public universe with the default
/// instance parses back to that SteamID, with the brackets and without them, for every account
/// type that has a letter of its own (all but `P2PSuperSeeder`).
pub proof fn law_parse_community_of_display(v: u64)
    requires
        valid_raw(v),
        raw_universe(v) == 1,
        raw_instance(v) == 1,
        raw_account_type(v) != 9,
    ensures
        community_model(community_string(v)) == Ok::<u64, CommunityFailure>(v),
        community_model(community_string(v).subrange(1, community_string(v).len() - 1)) == Ok::<
            u64,
            CommunityFailure,
        >(v),
{
    lemma_unpack(v);
    let t = account_type_of_code(raw_account_type(v))->0;
    assert(t.code() == raw_account_type(v));
    assert(t != AccountType::P2PSuperSeeder);
    law_account_type_of_letter(t);
    let a = raw_account_number(v);
    let y = raw_y(v);
    let c: nat = (a * 2 + y) as nat;
    let l = seq![t.letter()];
    let d = decimal_string(c);
    lemma_decimal_string(c, u32::MAX as int);
    lemma_parse_decimal_string(c, u32::MAX as int);
    reveal_strlit(":1:");
    reveal_strlit("1");
    let inner = l + seq![':'] + "1"@ + seq![':'] + d;
    let s = community_string(v);
    assert(s =~= seq!['['] + inner + seq![']']);
    assert(s.subrange(1, s.len() - 1) =~= inner);
    assert(community_inner(s) == Some(inner));
    assert(inner[0] == t.letter());
    assert(inner.last() == d.last());
    assert(is_digit(d[d.len() - 1]));
    assert(community_inner(inner) == Some(inner));
    assert(index_of(l, ':') is None) by {
        assert(l.drop_first() =~= Seq::<char>::empty());
        assert(index_of(l.drop_first(), ':') is None);
    }
    assert(index_of("1"@, ':') is None) by {
        assert("1"@.drop_first() =~= Seq::<char>::empty());
        assert(index_of("1"@.drop_first(), ':') is None);
    }
    lemma_split_three(l, "1"@, d, ':');
    assert((c / 2) as u64 == a && (c % 2) as u64 == y);
}

/// Parsing falls back to the community format: a string that is neither a 64-bit integer nor
/// in the standard format parses as whatever the community format reads from it, with or
/// without brackets.
pub proof fn law_parse_falls_back_to_community(s: Seq<char>)
    requires
        parse_unsigned(s, u64::MAX as int) is Err,
        standard_model(s) is Err,
    ensures
        community_model(s) matches Ok(v) ==> parse_model(s) == Ok::<u64, Option<InvalidSteamId>>(v),
        community_model(s) is Err ==> parse_model(s) == Err::<u64, Option<InvalidSteamId>>(None),
{
}

/// The community rendering `[T:1:N]` of a SteamID in the public universe with the default
/// instance, and the same text without brackets, are read back to that SteamID by the parser
/// of every format, for every account type that has a letter of its own.
pub proof fn law_parse_of_community_display(v: u64)
    requires
        valid_raw(v),
        raw_universe(v) == 1,
        raw_instance(v) == 1,
        raw_account_type(v) != 9,
    ensures
        parse_model(community_string(v)) == Ok::<u64, Option<InvalidSteamId>>(v),
        parse_model(community_string(v).subrange(1, community_string(v).len() - 1)) == Ok::<
            u64,
            Option<InvalidSteamId>,
        >(v),
{
    law_parse_community_of_display(v);
    let s = community_string(v);
    let inner = s.subrange(1, s.len() - 1);
    let t = account_type_of_code(raw_account_type(v))->0;
    reveal_strlit("STEAM_");
    assert(s[0] == '[');
    assert(inner[0] == t.letter());
    assert(t.letter() != 'S' && !is_digit(t.letter()) && t.letter() != '+');
    crate::text::lemma_scan_first_non_digit(s, u64::MAX as int);
    crate::text::lemma_scan_first_non_digit(inner, u64::MAX as int);
    assert(!starts_with(s, "STEAM_"@)) by {
        if starts_with(s, "STEAM_"@) {
            assert(s.subrange(0, 6)[0] == 'S');
        }
    }
    assert(!starts_with(inner, "STEAM_"@)) by {
        if starts_with(inner, "STEAM_"@) {
            assert(inner.subrange(0, 6)[0] == 'S');
        }
    }
}

} // verus!
