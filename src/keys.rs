use vstd::prelude::*;

verus! {

/// Prefix of primary account records: `user`.
pub open spec fn user_prefix() -> Seq<u8> {
    seq![117u8, 115u8, 101u8, 114u8]
}

/// Prefix of the email index: `email_idx`.
pub open spec fn email_prefix() -> Seq<u8> {
    seq![101u8, 109u8, 97u8, 105u8, 108u8, 95u8, 105u8, 100u8, 120u8]
}

/// Prefix of the verification-token index: `verify`.
pub open spec fn verify_prefix() -> Seq<u8> {
    seq![118u8, 101u8, 114u8, 105u8, 102u8, 121u8]
}

/// Prefix of the reset-token index: `reset`.
pub open spec fn reset_prefix() -> Seq<u8> {
    seq![114u8, 101u8, 115u8, 101u8, 116u8]
}

/// The sixteen bytes of an identifier, most significant first.
pub open spec fn id_bytes(id: u128) -> Seq<u8> {
    Seq::new(16, |i: int| ((id >> (((15 - i) * 8) as u128)) & 0xffu128) as u8)
}

/// Key of the account record of `id`.
pub open spec fn user_key(id: u128) -> Seq<u8> {
    user_prefix() + id_bytes(id)
}

/// Key of the email index entry of `email`.
pub open spec fn email_key(email: Seq<char>) -> Seq<u8> {
    email_prefix() + vstd::utf8::encode_utf8(email)
}

/// Key of the verification-token index entry of `token`.
pub open spec fn verify_key(token: Seq<char>) -> Seq<u8> {
    verify_prefix() + vstd::utf8::encode_utf8(token)
}

/// Key of the reset-token index entry of `token`.
pub open spec fn reset_key(token: Seq<char>) -> Seq<u8> {
    reset_prefix() + vstd::utf8::encode_utf8(token)
}

/// The four key spaces are disjoint: their prefixes differ in the first byte.
pub proof fn lemma_key_spaces_disjoint(id: u128, a: Seq<char>, b: Seq<char>, c: Seq<char>)
    ensures
        user_key(id) != email_key(a),
        user_key(id) != verify_key(b),
        user_key(id) != reset_key(c),
        email_key(a) != verify_key(b),
        email_key(a) != reset_key(c),
        verify_key(b) != reset_key(c),
{
    assert(user_key(id)[0] == 117u8);
    assert(email_key(a)[0] == 101u8);
    assert(verify_key(b)[0] == 118u8);
    assert(reset_key(c)[0] == 114u8);
}

fn append_bytes(key: &mut Vec<u8>, b: &[u8])
    ensures
        final(key)@ == old(key)@ + b@,
{
    let mut i: usize = 0;
    while i < b.len()
        invariant
            0 <= i <= b@.len(),
            key@ == old(key)@ + b@.take(i as int),
        decreases b@.len() - i,
    {
        key.push(b[i]);
        assert(b@.take(i + 1) == b@.take(i as int).push(b@[i as int]));
        i = i + 1;
    }
    assert(b@.take(b@.len() as int) == b@);
}

fn push_id_bytes(key: &mut Vec<u8>, id: u128)
    ensures
        final(key)@ == old(key)@ + id_bytes(id),
{
    let mut i: usize = 0;
    while i < 16
        invariant
            0 <= i <= 16,
            key@ == old(key)@ + id_bytes(id).take(i as int),
        decreases 16 - i,
    {
        let shift: u128 = ((15 - i) * 8) as u128;
        key.push(((id >> shift) & 0xff) as u8);
        assert(id_bytes(id).take(i + 1) == id_bytes(id).take(i as int).push(id_bytes(id)[i as int]));
        i = i + 1;
    }
    assert(id_bytes(id).take(16) == id_bytes(id));
}

/// The sixteen bytes of an identifier.
pub fn identifier_bytes(id: u128) -> (r: Vec<u8>)
    ensures
        r@ == id_bytes(id),
{
    let mut v: Vec<u8> = Vec::new();
    push_id_bytes(&mut v, id);
    assert(v@ =~= id_bytes(id));
    v
}

/// Builds the key of the account record of `id`.
pub fn make_user_key(id: u128) -> (r: Vec<u8>)
    ensures
        r@ == user_key(id),
{
    let mut key: Vec<u8> = vec![117u8, 115u8, 101u8, 114u8];
    push_id_bytes(&mut key, id);
    key
}

/// Builds the key of the email index entry of `email`.
pub fn make_email_key(email: &str) -> (r: Vec<u8>)
    ensures
        r@ == email_key(email@),
{
    let mut key: Vec<u8> = vec![101u8, 109u8, 97u8, 105u8, 108u8, 95u8, 105u8, 100u8, 120u8];
    append_bytes(&mut key, email.as_bytes());
    key
}

/// Builds the key of the verification-token index entry of `token`.
pub fn make_verification_key(token: &str) -> (r: Vec<u8>)
    ensures
        r@ == verify_key(token@),
{
    let mut key: Vec<u8> = vec![118u8, 101u8, 114u8, 105u8, 102u8, 121u8];
    append_bytes(&mut key, token.as_bytes());
    key
}

/// Builds the key of the reset-token index entry of `token`.
pub fn make_reset_key(token: &str) -> (r: Vec<u8>)
    ensures
        r@ == reset_key(token@),
{
    let mut key: Vec<u8> = vec![114u8, 101u8, 115u8, 101u8, 116u8];
    append_bytes(&mut key, token.as_bytes());
    key
}

} // verus!
