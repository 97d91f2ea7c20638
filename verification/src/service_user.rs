//! The user service: the login flow and the credential, profile, role and
//! account lifecycle operations, all stated against the directory.
//!
//! Login deliberately collapses "no such email" and "wrong password" into
//! one client-visible error, so an attacker cannot enumerate accounts.
//! The account with id 1 can neither be deleted nor have its role
//! changed, and no public flow assigns the Admin rank.

use vstd::prelude::*;

use crate::config_bcrypt::{bcrypt_matches, encrypt_password, verify_password};
use crate::config_environment::{MAX_ENCRYPT_COST, MIN_ENCRYPT_COST};
use crate::config_jwt::{
    decoded_claims, generate_token, get_email_by_token, token_accepted, valid_token,
    TOKEN_LIFETIME_SECONDS,
};
use crate::errors::BackendError;
use crate::guard_user::AuthenticationGuard;
use crate::user_directory::{
    email_taken_by_other, has_email, has_id, index_of_email, index_of_id, user_with_email, User,
    UserDirectory, UserView,
};
use crate::user_dtos::{
    AuthenticationDTO, LoginDTO, UserCreateDTO, UserCredentialsUpdateDTO,
    UserInformationsUpdateDTO, UserRoleUpdateDTO, UserSummaryForAdminDTO, ValidedTokenDTO,
};
use crate::user_enums::UserRole;

verus! {

/// The directory accepts the credentials: the email resolves to a record
/// whose password digest the submitted password matches.
pub open spec fn login_accepts(users: Seq<UserView>, email: Seq<char>, password: Seq<char>) -> bool {
    has_email(users, email) && bcrypt_matches(password, user_with_email(users, email).password)
}

/// A role rank a public flow may assign: Admin (rank 1) is excluded.
pub open spec fn assignable_rank(role: u8) -> bool {
    2 <= role <= 4
}

/// Validates submitted credentials and, on success, issues a token and
/// the role-annotated authentication response. An unknown email and a
/// wrong password are one and the same rejection.
pub fn login(
    directory: &UserDirectory,
    jwt_secret: &str,
    login_dto: LoginDTO,
    now_seconds: u64,
) -> (r: Result<AuthenticationDTO, BackendError>)
    requires
        directory.wf(),
        now_seconds + TOKEN_LIFETIME_SECONDS <= u64::MAX,
    ensures
        (r is Ok) == login_accepts(directory@, login_dto.email@, login_dto.password@),
        match r {
            Ok(auth) => {
                let user = user_with_email(directory@, login_dto.email@);
                auth.role == user.role && auth.username@ == user.username && auth.rolename@
                    == UserRole::spec_label(user.role) && decoded_claims(auth.token@, jwt_secret@)
                    == Some((login_dto.email@, (now_seconds + TOKEN_LIFETIME_SECONDS) as u64))
            },
            Err(e) => e == BackendError::InvalidCredentialsError,
        },
{
    let user = match directory.find_by_email(login_dto.get_email()) {
        Some(user) => user,
        None => {
            return Err(BackendError::InvalidCredentialsError);
        },
    };
    if !verify_password(login_dto.get_password(), user.password.as_str()) {
        return Err(BackendError::InvalidCredentialsError);
    }
    let token = generate_token(jwt_secret, user.email.as_str(), now_seconds);
    Ok(
        AuthenticationDTO::new(
            token,
            user.role,
            user.username.clone(),
            UserRole::code_to_string(user.role),
        ),
    )
}

/// Probes whether a presented token is both live and still backed by an
/// existing account. A token whose subject has vanished — a deleted
/// account with a still-live token — is a directory fault, an internal
/// error kind distinct from both an invalid token and bad credentials.
pub fn valid(
    directory: &UserDirectory,
    jwt_secret: &str,
    authentication: AuthenticationGuard,
    now_seconds: u64,
) -> (r: Result<ValidedTokenDTO, BackendError>)
    requires
        directory.wf(),
    ensures
        match r {
            Ok(dto) => {
                if token_accepted(authentication.0@, jwt_secret@, now_seconds) {
                    dto.valided && has_email(
                        directory@,
                        decoded_claims(authentication.0@, jwt_secret@).unwrap().0,
                    )
                } else {
                    !dto.valided
                }
            },
            Err(e) => e == BackendError::DatabaseError && token_accepted(
                authentication.0@,
                jwt_secret@,
                now_seconds,
            ) && !has_email(
                directory@,
                decoded_claims(authentication.0@, jwt_secret@).unwrap().0,
            ),
        },
{
    if !valid_token(jwt_secret, authentication.0.as_str(), now_seconds) {
        return Ok(ValidedTokenDTO::new(false));
    }
    let email = get_email_by_token(jwt_secret, authentication.0.as_str());
    if directory.exists_by_email(email.as_str()) {
        Ok(ValidedTokenDTO::new(true))
    } else {
        Err(BackendError::DatabaseError)
    }
}

/// Creates an account from the submitted values: the rank must be one a
/// public flow may assign, the email must be fresh, and the password is
/// stored only as its digest.
pub fn create_user(
    directory: &mut UserDirectory,
    cost: u32,
    user_create_dto: UserCreateDTO,
) -> (r: Result<(), BackendError>)
    requires
        old(directory).wf(),
        MIN_ENCRYPT_COST <= cost <= MAX_ENCRYPT_COST,
    ensures
        final(directory).wf(),
        (r == Err::<(), BackendError>(BackendError::InvalidValuesError)) == !assignable_rank(
            user_create_dto.role,
        ),
        (r == Err::<(), BackendError>(BackendError::ResourceAlreadyInsertedError)) == (
        assignable_rank(user_create_dto.role) && has_email(old(directory)@, user_create_dto.email@)),
        r is Err ==> final(directory)@ == old(directory)@,
        r matches Err(e) ==> (e == BackendError::InvalidValuesError || e
            == BackendError::ResourceAlreadyInsertedError || e == BackendError::DatabaseError),
        r is Ok ==> {
            let created = final(directory)@.last();
            final(directory)@ == old(directory)@.push(created) && created.username
                == user_create_dto.username@ && created.email == user_create_dto.email@
                && created.role == user_create_dto.role && bcrypt_matches(
                user_create_dto.password@,
                created.password,
            ) && !has_id(old(directory)@, created.id) && !has_email(
                old(directory)@,
                user_create_dto.email@,
            )
        },
{
    if user_create_dto.role == 1 || user_create_dto.role < 1 || user_create_dto.role > 4 {
        return Err(BackendError::InvalidValuesError);
    }
    if directory.exists_by_email(user_create_dto.get_email()) {
        return Err(BackendError::ResourceAlreadyInsertedError);
    }
    let digest = match encrypt_password(user_create_dto.get_password(), cost) {
        Some(digest) => digest,
        None => {
            return Err(BackendError::DatabaseError);
        },
    };
    match directory.insert(
        user_create_dto.username,
        user_create_dto.email,
        digest,
        user_create_dto.role,
    ) {
        Ok(_) => Ok(()),
        Err(_) => Err(BackendError::DatabaseError),
    }
}

/// Replaces the password digest of the subject's record, but only after
/// the old password re-verifies; a wrong old password changes nothing.
pub fn update_user_credentials(
    directory: &mut UserDirectory,
    email: &str,
    user_update_dto: UserCredentialsUpdateDTO,
    cost: u32,
) -> (r: Result<(), BackendError>)
    requires
        old(directory).wf(),
        MIN_ENCRYPT_COST <= cost <= MAX_ENCRYPT_COST,
    ensures
        final(directory).wf(),
        (r == Err::<(), BackendError>(BackendError::ResourceNotFoundError)) == !has_email(
            old(directory)@,
            email@,
        ),
        (r == Err::<(), BackendError>(BackendError::InvalidCredentialsError)) == (has_email(
            old(directory)@,
            email@,
        ) && !bcrypt_matches(
            user_update_dto.old_password@,
            user_with_email(old(directory)@, email@).password,
        )),
        r is Err ==> final(directory)@ == old(directory)@,
        r matches Err(e) ==> (e == BackendError::ResourceNotFoundError || e
            == BackendError::InvalidCredentialsError || e == BackendError::DatabaseError),
        r is Ok ==> {
            let i = index_of_email(old(directory)@, email@);
            let updated = final(directory)@[i];
            final(directory)@ == old(directory)@.update(i, updated) && updated.id == old(
                directory,
            )@[i].id && updated.username == old(directory)@[i].username && updated.email == old(
                directory,
            )@[i].email && updated.role == old(directory)@[i].role && bcrypt_matches(
                user_update_dto.new_password@,
                updated.password,
            )
        },
{
    let index = match directory.find_index_by_email(email) {
        Some(index) => index,
        None => {
            return Err(BackendError::ResourceNotFoundError);
        },
    };
    let logged_user = directory.user_at(index);
    if !verify_password(user_update_dto.get_old_password(), logged_user.password.as_str()) {
        return Err(BackendError::InvalidCredentialsError);
    }
    let digest = match encrypt_password(user_update_dto.get_new_password(), cost) {
        Some(digest) => digest,
        None => {
            return Err(BackendError::DatabaseError);
        },
    };
    let updated = User {
        id: logged_user.id,
        username: logged_user.username.clone(),
        email: logged_user.email.clone(),
        password: digest,
        role: logged_user.role,
    };
    proof {
        if email_taken_by_other(old(directory)@, old(directory)@[index as int].id, updated@.email) {
            let k = choose|i: int|
                0 <= i < old(directory)@.len() && (#[trigger] old(directory)@[i]).email
                    == updated@.email && old(directory)@[i].id != old(directory)@[index as int].id;
            assert(old(directory)@[k].email == old(directory)@[index as int].email);
            assert(false);
        }
        assert(index_of_id(old(directory)@, old(directory)@[index as int].id) == index as int) by {
            let k = index_of_id(old(directory)@, old(directory)@[index as int].id);
            assert(has_id(old(directory)@, old(directory)@[index as int].id));
            assert(old(directory)@[k].id == old(directory)@[index as int].id);
        }
        assert(old(directory)@[index as int].id == updated@.id);
        assert(has_id(old(directory)@, updated@.id));
    }
    match directory.update(updated) {
        Ok(_) => Ok(()),
        Err(_) => {
            proof {
                assert(false);
            }
            Err(BackendError::DatabaseError)
        },
    }
}

/// True when the sequence holds only layout characters, so that a
/// submitted field counts as "left empty" — the emptiness test a
/// whitespace trim would give.
pub open spec fn is_blank(s: Seq<char>) -> bool {
    forall|i: int| 0 <= i < s.len() ==> is_layout_char(#[trigger] s[i])
}

/// The characters Unicode gives the White_Space property, the set a
/// whitespace trim removes.
pub open spec fn is_layout_char(c: char) -> bool {
    ||| ('\u{0009}' <= c && c <= '\u{000D}')
    ||| c == ' '
    ||| c == '\u{0085}'
    ||| c == '\u{00A0}'
    ||| c == '\u{1680}'
    ||| ('\u{2000}' <= c && c <= '\u{200A}')
    ||| c == '\u{2028}'
    ||| c == '\u{2029}'
    ||| c == '\u{202F}'
    ||| c == '\u{205F}'
    ||| c == '\u{3000}'
}

fn is_layout_char_exec(c: char) -> (r: bool)
    ensures
        r == is_layout_char(c),
{
    ('\u{0009}' <= c && c <= '\u{000D}') || c == ' ' || c == '\u{0085}' || c == '\u{00A0}'
        || c == '\u{1680}' || ('\u{2000}' <= c && c <= '\u{200A}') || c == '\u{2028}'
        || c == '\u{2029}' || c == '\u{202F}' || c == '\u{205F}' || c == '\u{3000}'
}

/// A submitted field replaces the current value only when it is not left
/// blank.
pub open spec fn submitted_or_kept(submitted: Seq<char>, current: Seq<char>) -> Seq<char> {
    if is_blank(submitted) {
        current
    } else {
        submitted
    }
}

/// Whether a field was left blank.
pub fn is_blank_str(s: &str) -> (r: bool)
    ensures
        r == is_blank(s@),
{
    let n = s.unicode_len();
    let mut i: usize = 0;
    while i < n
        invariant
            n == s@.len(),
            0 <= i <= n,
            forall|j: int| 0 <= j < i ==> is_layout_char(#[trigger] s@[j]),
        decreases n - i,
    {
        let c = s.get_char(i);
        if !is_layout_char_exec(c) {
            return false;
        }
        i += 1;
    }
    true
}

/// Updates the subject's profile fields: a blank submitted field keeps
/// the stored value, and a new email may not collide with another
/// account's.
pub fn update_user_informations(
    directory: &mut UserDirectory,
    email: &str,
    user_update_dto: UserInformationsUpdateDTO,
) -> (r: Result<(), BackendError>)
    requires
        old(directory).wf(),
    ensures
        final(directory).wf(),
        (r == Err::<(), BackendError>(BackendError::ResourceNotFoundError)) == !has_email(
            old(directory)@,
            email@,
        ),
        has_email(old(directory)@, email@) ==> {
            let current = user_with_email(old(directory)@, email@);
            let target = UserView {
                id: current.id,
                username: submitted_or_kept(user_update_dto.username@, current.username),
                email: submitted_or_kept(user_update_dto.email@, current.email),
                password: current.password,
                role: current.role,
            };
            &&& (r == Err::<(), BackendError>(BackendError::ResourceConflitUpdateError))
                == email_taken_by_other(old(directory)@, current.id, target.email)
            &&& r is Ok ==> final(directory)@ == old(directory)@.update(
                index_of_email(old(directory)@, email@),
                target,
            )
        },
        r is Err ==> final(directory)@ == old(directory)@,
        r matches Err(e) ==> (e == BackendError::ResourceNotFoundError || e
            == BackendError::ResourceConflitUpdateError),
{
    let index = match directory.find_index_by_email(email) {
        Some(index) => index,
        None => {
            return Err(BackendError::ResourceNotFoundError);
        },
    };
    let logged_user = directory.user_at(index);
    let UserInformationsUpdateDTO { username: submitted_username, email: submitted_email } =
        user_update_dto;
    let new_username = if is_blank_str(submitted_username.as_str()) {
        logged_user.username.clone()
    } else {
        submitted_username
    };
    let new_email = if is_blank_str(submitted_email.as_str()) {
        logged_user.email.clone()
    } else {
        submitted_email
    };
    let updated = User {
        id: logged_user.id,
        username: new_username,
        email: new_email,
        password: logged_user.password.clone(),
        role: logged_user.role,
    };
    proof {
        assert(index_of_id(old(directory)@, old(directory)@[index as int].id) == index as int) by {
            let k = index_of_id(old(directory)@, old(directory)@[index as int].id);
            assert(has_id(old(directory)@, old(directory)@[index as int].id));
            assert(old(directory)@[k].id == old(directory)@[index as int].id);
        }
        assert(old(directory)@[index as int].id == updated@.id);
        assert(has_id(old(directory)@, updated@.id));
    }
    match directory.update(updated) {
        Ok(_) => Ok(()),
        Err(BackendError::ResourceConflitUpdateError) => Err(
            BackendError::ResourceConflitUpdateError,
        ),
        Err(_) => {
            proof {
                assert(false);
            }
            Err(BackendError::DatabaseError)
        },
    }
}

/// Removes an account. The account with id 1 is protected: the request
/// is rejected as invalid whatever the caller's role.
pub fn delete_user_by_id(directory: &mut UserDirectory, id: u64) -> (r: Result<(), BackendError>)
    requires
        old(directory).wf(),
    ensures
        final(directory).wf(),
        (r == Err::<(), BackendError>(BackendError::InvalidValuesError)) == (id == 1),
        (r == Err::<(), BackendError>(BackendError::ResourceNotFoundError)) == (id != 1 && !has_id(
            old(directory)@,
            id,
        )),
        (r is Ok) == (id != 1 && has_id(old(directory)@, id)),
        r is Ok ==> final(directory)@ == old(directory)@.remove(index_of_id(old(directory)@, id)),
        r is Err ==> final(directory)@ == old(directory)@,
{
    if id == 1 {
        return Err(BackendError::InvalidValuesError);
    }
    match directory.delete_by_id(id) {
        Ok(_) => Ok(()),
        Err(_) => Err(BackendError::ResourceNotFoundError),
    }
}

/// Changes an account's role rank. Only assignable ranks may be given,
/// and the account with id 1 can never be demoted.
pub fn switch_role(
    directory: &mut UserDirectory,
    user_role_update_dto: UserRoleUpdateDTO,
) -> (r: Result<(), BackendError>)
    requires
        old(directory).wf(),
    ensures
        final(directory).wf(),
        (r == Err::<(), BackendError>(BackendError::InvalidValuesError)) == (!assignable_rank(
            user_role_update_dto.role,
        ) || user_role_update_dto.user_id == 1),
        (r == Err::<(), BackendError>(BackendError::ResourceNotFoundError)) == (assignable_rank(
            user_role_update_dto.role,
        ) && user_role_update_dto.user_id != 1 && !has_id(
            old(directory)@,
            user_role_update_dto.user_id,
        )),
        (r is Ok) == (assignable_rank(user_role_update_dto.role) && user_role_update_dto.user_id
            != 1 && has_id(old(directory)@, user_role_update_dto.user_id)),
        r is Ok ==> {
            let i = index_of_id(old(directory)@, user_role_update_dto.user_id);
            let previous = old(directory)@[i];
            final(directory)@ == old(directory)@.update(
                i,
                UserView {
                    id: previous.id,
                    username: previous.username,
                    email: previous.email,
                    password: previous.password,
                    role: user_role_update_dto.role,
                },
            )
        },
        r is Err ==> final(directory)@ == old(directory)@,
{
    if user_role_update_dto.role < 2 || user_role_update_dto.role > 4
        || user_role_update_dto.user_id == 1 {
        return Err(BackendError::InvalidValuesError);
    }
    let index = match directory.find_index_by_id(user_role_update_dto.user_id) {
        Some(index) => index,
        None => {
            return Err(BackendError::ResourceNotFoundError);
        },
    };
    let current = directory.user_at(index);
    let updated = User {
        id: current.id,
        username: current.username.clone(),
        email: current.email.clone(),
        password: current.password.clone(),
        role: user_role_update_dto.role,
    };
    proof {
        if email_taken_by_other(old(directory)@, old(directory)@[index as int].id, updated@.email) {
            let k = choose|i: int|
                0 <= i < old(directory)@.len() && (#[trigger] old(directory)@[i]).email
                    == updated@.email && old(directory)@[i].id != old(directory)@[index as int].id;
            assert(old(directory)@[k].email == old(directory)@[index as int].email);
            assert(false);
        }
        assert(old(directory)@[index as int].id == updated@.id);
        assert(has_id(old(directory)@, updated@.id));
    }
    match directory.update(updated) {
        Ok(_) => Ok(()),
        Err(_) => {
            proof {
                assert(false);
            }
            Err(BackendError::DatabaseError)
        },
    }
}

/// Lists every account for the admin screen, the role rank rendered as
/// its display label.
pub fn get_all_users(directory: &UserDirectory) -> (r: Vec<UserSummaryForAdminDTO>)
    ensures
        r@.len() == directory@.len(),
        forall|i: int|
            0 <= i < directory@.len() ==> {
                let summary = #[trigger] r@[i];
                summary.id == directory@[i].id && summary.username@ == directory@[i].username
                    && summary.email@ == directory@[i].email && summary.role@
                    == UserRole::spec_label(directory@[i].role)
            },
{
    let n = directory.len();
    let mut result: Vec<UserSummaryForAdminDTO> = Vec::new();
    let mut i: usize = 0;
    while i < n
        invariant
            n == directory@.len(),
            0 <= i <= n,
            result@.len() == i,
            forall|j: int|
                0 <= j < i ==> {
                    let summary = #[trigger] result@[j];
                    summary.id == directory@[j].id && summary.username@ == directory@[j].username
                        && summary.email@ == directory@[j].email && summary.role@
                        == UserRole::spec_label(directory@[j].role)
                },
        decreases n - i,
    {
        let user = directory.user_at(i);
        let summary = UserSummaryForAdminDTO {
            id: user.id,
            username: user.username.clone(),
            email: user.email.clone(),
            role: UserRole::code_to_string(user.role),
        };
        result.push(summary);
        i += 1;
    }
    result
}

/// A user just created can log in, and the token a login issues passes
/// plain authentication while the account stands: creating a record with
/// a fresh email whose digest matches the password makes the directory
/// accept those credentials, and a token asserting that email with an
/// expiration still in the future passes authentication, whose
/// subject the grown directory still resolves.
pub proof fn lemma_create_login_authenticate(
    users: Seq<UserView>,
    created: UserView,
    email: Seq<char>,
    password: Seq<char>,
    token: Seq<char>,
    secret: Seq<char>,
    expiration: u64,
    now_seconds: u64,
)
    requires
        !has_email(users, email),
        created.email == email,
        bcrypt_matches(password, created.password),
        decoded_claims(token, secret) == Some((email, expiration)),
        now_seconds < expiration,
    ensures
        login_accepts(users.push(created), email, password),
        token_accepted(token, secret, now_seconds),
        has_email(users.push(created), email),
{
    let extended = users.push(created);
    assert(extended[users.len() as int] == created);
    assert(has_email(extended, email));
    let k = index_of_email(extended, email);
    assert(extended[k].email == email);
    if k != users.len() as int {
        assert(extended[k] == users[k]);
        assert(has_email(users, email));
        assert(false);
    }
    assert(user_with_email(extended, email) == created);
}

} // verus!
