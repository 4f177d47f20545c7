use vstd::prelude::*;

verus! {

/// The host environment of one invocation. Opaque: its persistent storage is
/// spoken of through `persistent_numbers` and `persistent_addresses`.
#[verifier::external_type_specification]
#[verifier::external_body]
pub struct ExEnv(soroban_sdk::Env);

/// An identity known to a host. Opaque: two values are equal when they
/// denote the same identity.
#[verifier::external_type_specification]
#[verifier::external_body]
pub struct ExAddress(soroban_sdk::Address);

/// The error with which the host refuses a call. Opaque.
#[verifier::external_type_specification]
#[verifier::external_body]
pub struct ExError(soroban_sdk::Error);

/// The entries of the running contract's persistent storage whose key is a
/// one-element tuple holding a symbol and whose value is a `u32`, by the
/// symbol's text.
pub uninterp spec fn persistent_numbers(env: soroban_sdk::Env) -> Map<Seq<char>, u32>;

/// The entries of the running contract's persistent storage whose key is a
/// one-element tuple holding a symbol and whose value is an address, by the
/// symbol's text.
pub uninterp spec fn persistent_addresses(env: soroban_sdk::Env) -> Map<
    Seq<char>,
    soroban_sdk::Address,
>;

/// What a map holds under a key, if anything.
pub open spec fn lookup<V>(m: Map<Seq<char>, V>, name: Seq<char>) -> Option<V> {
    if m.contains_key(name) {
        Some(m[name])
    } else {
        None
    }
}

/// Trusted: `soroban_env_host::Env::require_auth` on the host behind `env`,
/// the call that `Address::require_auth` makes before it turns a refusal into
/// an abort. `caller` is carried into this host by value first, so that the
/// host is asked about the identity that `caller` denotes. `Ok` says that the
/// host accepted that `caller` authorized the running invocation. Nothing is
/// claimed of the answer: it depends on the invocation's authorization
/// context.
#[verifier::external_body]
pub(crate) fn authorization(env: &soroban_sdk::Env, caller: &soroban_sdk::Address) -> (verdict:
    Result<(), soroban_sdk::Error>) {
    let host = env.host();
    let plain: soroban_env_host::xdr::ScVal = soroban_env_host::TryFromVal::try_from_val(
        caller.env().host(),
        &caller.to_val(),
    )?;
    let here: soroban_env_host::Val = soroban_env_host::TryFromVal::try_from_val(host, &plain)?;
    let object: soroban_env_host::AddressObject = soroban_env_host::TryFromVal::try_from_val(
        host,
        &here,
    )?;
    soroban_env_host::Env::require_auth(host, object).map_err(|e| e.error)?;
    Ok(())
}

/// Trusted: `soroban_env_host::Env::has_contract_data` on the host behind
/// `env`, for persistent storage and the key that is the one-element tuple of
/// the symbol `name`. Claims that a slot reported absent holds neither a
/// number nor an address. Every refusal of the host, of the text as a symbol
/// too, comes back as `Err`.
#[verifier::external_body]
pub(crate) fn slot_present(env: &soroban_sdk::Env, name: &str) -> (found: Result<
    bool,
    soroban_sdk::Error,
>)
    ensures
        found matches Ok(present) ==> (!present ==> !persistent_numbers(*env).contains_key(name@)
            && !persistent_addresses(*env).contains_key(name@)),
{
    let host = env.host();
    let symbol: soroban_env_host::Symbol = soroban_env_host::TryFromVal::try_from_val(host, &name)?;
    let key: soroban_env_host::Val = soroban_env_host::TryFromVal::try_from_val(host, &(symbol,))?;
    let storage = soroban_env_host::StorageType::Persistent;
    let present = soroban_env_host::Env::has_contract_data(host, key, storage).map_err(|e| e.error)?;
    Ok(present.into())
}

/// Trusted: `soroban_env_host::Env::get_contract_data` on the host behind
/// `env`, for persistent storage and the key that is the one-element tuple of
/// the symbol `name`, converted with `u32::try_from_val`. Claims that `Ok`
/// carries the `u32` stored under `name`, and `None` where the slot holds
/// something else. An absent slot and every other refusal of the host come
/// back as `Err`.
#[verifier::external_body]
pub(crate) fn read_number(env: &soroban_sdk::Env, name: &str) -> (found: Result<
    Option<u32>,
    soroban_sdk::Error,
>)
    ensures
        found matches Ok(slot) ==> slot == lookup(persistent_numbers(*env), name@),
{
    let host = env.host();
    let symbol: soroban_env_host::Symbol = soroban_env_host::TryFromVal::try_from_val(host, &name)?;
    let key: soroban_env_host::Val = soroban_env_host::TryFromVal::try_from_val(host, &(symbol,))?;
    let storage = soroban_env_host::StorageType::Persistent;
    let raw = soroban_env_host::Env::get_contract_data(host, key, storage).map_err(|e| e.error)?;
    Ok(soroban_env_host::TryFromVal::try_from_val(host, &raw).ok())
}

/// Trusted: `soroban_env_host::Env::get_contract_data` on the host behind
/// `env`, for persistent storage and the key that is the one-element tuple of
/// the symbol `name`, converted with `Address::try_from_val`. Claims that
/// `Ok` carries the address stored under `name`, and `None` where the slot
/// holds something else. An absent slot and every other refusal of the host
/// come back as `Err`.
#[verifier::external_body]
pub(crate) fn read_address(env: &soroban_sdk::Env, name: &str) -> (found: Result<
    Option<soroban_sdk::Address>,
    soroban_sdk::Error,
>)
    ensures
        found matches Ok(slot) ==> slot == lookup(persistent_addresses(*env), name@),
{
    let host = env.host();
    let symbol: soroban_env_host::Symbol = soroban_env_host::TryFromVal::try_from_val(host, &name)?;
    let key: soroban_env_host::Val = soroban_env_host::TryFromVal::try_from_val(host, &(symbol,))?;
    let storage = soroban_env_host::StorageType::Persistent;
    let raw = soroban_env_host::Env::get_contract_data(host, key, storage).map_err(|e| e.error)?;
    Ok(soroban_sdk::TryFromVal::try_from_val(env, &raw).ok())
}

/// Trusted: `soroban_env_host::Env::put_contract_data` on the host behind
/// `env`, for persistent storage, the key that is the one-element tuple of
/// the symbol `name`, and a `u32` value. Claims that after `Ok` the slot
/// holds `value`, so it no longer holds an address, and that every other
/// slot is as it was. Every refusal of the host comes back as `Err`, of
/// which nothing is claimed.
#[verifier::external_body]
pub(crate) fn write_number(env: &mut soroban_sdk::Env, name: &str, value: u32) -> (done: Result<
    (),
    soroban_sdk::Error,
>)
    ensures
        done is Ok ==> persistent_numbers(*final(env)) == persistent_numbers(*old(env)).insert(
            name@,
            value,
        ),
        done is Ok ==> persistent_addresses(*final(env)) == persistent_addresses(
            *old(env),
        ).remove(name@),
{
    let host = env.host();
    let symbol: soroban_env_host::Symbol = soroban_env_host::TryFromVal::try_from_val(host, &name)?;
    let key: soroban_env_host::Val = soroban_env_host::TryFromVal::try_from_val(host, &(symbol,))?;
    let storage = soroban_env_host::StorageType::Persistent;
    let stored = soroban_env_host::Val::from(value);
    soroban_env_host::Env::put_contract_data(host, key, stored, storage).map_err(|e| e.error)?;
    Ok(())
}

/// Trusted: `soroban_env_host::Env::put_contract_data` on the host behind
/// `env`, for persistent storage, the key that is the one-element tuple of
/// the symbol `name`, and an address value. The address is carried into this
/// host by value first, so that what is stored is the identity that `value`
/// denotes, whichever environment made it. Claims that after `Ok` the slot
/// holds `value`, so it no longer holds a number, and that every other slot
/// is as it was. Every refusal of the host comes back as `Err`, of which
/// nothing is claimed.
#[verifier::external_body]
pub(crate) fn write_address(
    env: &mut soroban_sdk::Env,
    name: &str,
    value: &soroban_sdk::Address,
) -> (done: Result<(), soroban_sdk::Error>)
    ensures
        done is Ok ==> persistent_addresses(*final(env)) == persistent_addresses(
            *old(env),
        ).insert(name@, *value),
        done is Ok ==> persistent_numbers(*final(env)) == persistent_numbers(*old(env)).remove(
            name@,
        ),
{
    let host = env.host();
    let symbol: soroban_env_host::Symbol = soroban_env_host::TryFromVal::try_from_val(host, &name)?;
    let key: soroban_env_host::Val = soroban_env_host::TryFromVal::try_from_val(host, &(symbol,))?;
    let storage = soroban_env_host::StorageType::Persistent;
    let there = value.env().host();
    let plain: soroban_env_host::xdr::ScVal = soroban_env_host::TryFromVal::try_from_val(
        there,
        &value.to_val(),
    )?;
    let stored: soroban_env_host::Val = soroban_env_host::TryFromVal::try_from_val(host, &plain)?;
    soroban_env_host::Env::put_contract_data(host, key, stored, storage).map_err(|e| e.error)?;
    Ok(())
}

} // verus!
