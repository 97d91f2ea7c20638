use inventory_auth::config_jwt::TOKEN_LIFETIME_SECONDS;
use inventory_auth::errors::BackendError;
use inventory_auth::guard_user::{authenticate, AuthenticationGuard};
use inventory_auth::service_user::{
    create_user, delete_user_by_id, get_all_users, login, switch_role, update_user_credentials,
    update_user_informations, valid,
};
use inventory_auth::user_directory::UserDirectory;
use inventory_auth::user_dtos::{
    LoginDTO, UserCreateDTO, UserCredentialsUpdateDTO, UserInformationsUpdateDTO,
    UserRoleUpdateDTO,
};

const SECRET: &str = "service-test-secret";
const COST: u32 = 4;
const NOW: u64 = 1_700_000_000;

fn dto(username: &str, email: &str, password: &str, role: u8) -> UserCreateDTO {
    UserCreateDTO {
        username: username.to_string(),
        password: password.to_string(),
        email: email.to_string(),
        role,
    }
}

fn credentials(email: &str, password: &str) -> LoginDTO {
    LoginDTO { email: email.to_string(), password: password.to_string() }
}

#[test]
fn created_user_can_login_and_authenticate() {
    let mut directory = UserDirectory::new();
    create_user(&mut directory, COST, dto("ana", "ana@example.com", "senha123", 3)).unwrap();
    let auth = login(&directory, SECRET, credentials("ana@example.com", "senha123"), NOW).unwrap();
    assert_eq!(auth.role, 3);
    assert_eq!(auth.username, "ana");
    assert_eq!(auth.rolename, "Operador");
    let guard = authenticate(SECRET, Some(auth.token.as_str()), NOW).unwrap();
    assert_eq!(guard.0, auth.token);
}

#[test]
fn login_rejects_unknown_email_and_wrong_password_alike() {
    let mut directory = UserDirectory::new();
    create_user(&mut directory, COST, dto("ana", "ana@example.com", "senha123", 3)).unwrap();
    let unknown = login(&directory, SECRET, credentials("bob@example.com", "senha123"), NOW);
    let wrong = login(&directory, SECRET, credentials("ana@example.com", "senha124"), NOW);
    assert!(matches!(unknown, Err(BackendError::InvalidCredentialsError)));
    assert!(matches!(wrong, Err(BackendError::InvalidCredentialsError)));
}

#[test]
fn create_user_rejects_admin_and_unknown_ranks() {
    let mut directory = UserDirectory::new();
    let admin = create_user(&mut directory, COST, dto("a", "a@example.com", "pw", 1));
    let zero = create_user(&mut directory, COST, dto("b", "b@example.com", "pw", 0));
    let five = create_user(&mut directory, COST, dto("c", "c@example.com", "pw", 5));
    assert!(matches!(admin, Err(BackendError::InvalidValuesError)));
    assert!(matches!(zero, Err(BackendError::InvalidValuesError)));
    assert!(matches!(five, Err(BackendError::InvalidValuesError)));
    assert_eq!(directory.len(), 0);
}

#[test]
fn create_user_rejects_taken_email() {
    let mut directory = UserDirectory::new();
    create_user(&mut directory, COST, dto("ana", "ana@example.com", "pw", 3)).unwrap();
    let again = create_user(&mut directory, COST, dto("ana2", "ana@example.com", "pw2", 4));
    assert!(matches!(again, Err(BackendError::ResourceAlreadyInsertedError)));
    assert_eq!(directory.len(), 1);
}

#[test]
fn delete_of_account_one_is_rejected_for_everyone() {
    let mut directory = UserDirectory::new();
    create_user(&mut directory, COST, dto("ana", "ana@example.com", "pw", 3)).unwrap();
    let result = delete_user_by_id(&mut directory, 1);
    assert!(matches!(result, Err(BackendError::InvalidValuesError)));
    assert_eq!(directory.len(), 1);
}

#[test]
fn delete_removes_other_accounts() {
    let mut directory = UserDirectory::new();
    create_user(&mut directory, COST, dto("ana", "ana@example.com", "pw", 3)).unwrap();
    create_user(&mut directory, COST, dto("bob", "bob@example.com", "pw", 4)).unwrap();
    delete_user_by_id(&mut directory, 2).unwrap();
    assert!(!directory.exists_by_email("bob@example.com"));
    let missing = delete_user_by_id(&mut directory, 9);
    assert!(matches!(missing, Err(BackendError::ResourceNotFoundError)));
}

#[test]
fn credential_update_with_wrong_old_password_changes_nothing() {
    let mut directory = UserDirectory::new();
    create_user(&mut directory, COST, dto("ana", "ana@example.com", "senha123", 3)).unwrap();
    let update = UserCredentialsUpdateDTO {
        old_password: "errada".to_string(),
        new_password: "nova".to_string(),
    };
    let result = update_user_credentials(&mut directory, "ana@example.com", update, COST);
    assert!(matches!(result, Err(BackendError::InvalidCredentialsError)));
    assert!(login(&directory, SECRET, credentials("ana@example.com", "senha123"), NOW).is_ok());
    assert!(login(&directory, SECRET, credentials("ana@example.com", "nova"), NOW).is_err());
}

#[test]
fn credential_update_with_right_old_password_rehashes() {
    let mut directory = UserDirectory::new();
    create_user(&mut directory, COST, dto("ana", "ana@example.com", "senha123", 3)).unwrap();
    let update = UserCredentialsUpdateDTO {
        old_password: "senha123".to_string(),
        new_password: "nova".to_string(),
    };
    update_user_credentials(&mut directory, "ana@example.com", update, COST).unwrap();
    assert!(login(&directory, SECRET, credentials("ana@example.com", "nova"), NOW).is_ok());
    assert!(login(&directory, SECRET, credentials("ana@example.com", "senha123"), NOW).is_err());
}

#[test]
fn informations_update_keeps_blank_fields() {
    let mut directory = UserDirectory::new();
    create_user(&mut directory, COST, dto("ana", "ana@example.com", "pw", 3)).unwrap();
    let update = UserInformationsUpdateDTO {
        username: "  ".to_string(),
        email: "ana.maria@example.com".to_string(),
    };
    update_user_informations(&mut directory, "ana@example.com", update).unwrap();
    let user = directory.find_by_email("ana.maria@example.com").unwrap();
    assert_eq!(user.username, "ana");
    assert!(!directory.exists_by_email("ana@example.com"));
}

#[test]
fn informations_update_treats_unicode_whitespace_as_blank() {
    let mut directory = UserDirectory::new();
    create_user(&mut directory, COST, dto("ana", "ana@example.com", "pw", 3)).unwrap();
    // Vertical tab and no-break space count as a field left empty, as a
    // whitespace trim would decide.
    let update = UserInformationsUpdateDTO {
        username: "\u{000B}".to_string(),
        email: "\u{00A0}\u{2003}".to_string(),
    };
    update_user_informations(&mut directory, "ana@example.com", update).unwrap();
    let user = directory.find_by_email("ana@example.com").unwrap();
    assert_eq!(user.username, "ana");
    assert_eq!(user.email, "ana@example.com");
}

#[test]
fn informations_update_rejects_taken_email() {
    let mut directory = UserDirectory::new();
    create_user(&mut directory, COST, dto("ana", "ana@example.com", "pw", 3)).unwrap();
    create_user(&mut directory, COST, dto("bob", "bob@example.com", "pw", 4)).unwrap();
    let update = UserInformationsUpdateDTO {
        username: "".to_string(),
        email: "ana@example.com".to_string(),
    };
    let result = update_user_informations(&mut directory, "bob@example.com", update);
    assert!(matches!(result, Err(BackendError::ResourceConflitUpdateError)));
    assert!(directory.exists_by_email("bob@example.com"));
}

#[test]
fn switch_role_protects_account_one_and_the_admin_rank() {
    let mut directory = UserDirectory::new();
    create_user(&mut directory, COST, dto("ana", "ana@example.com", "pw", 3)).unwrap();
    let demote_first = switch_role(&mut directory, UserRoleUpdateDTO { user_id: 1, role: 4 });
    assert!(matches!(demote_first, Err(BackendError::InvalidValuesError)));
    let promote_to_admin = switch_role(&mut directory, UserRoleUpdateDTO { user_id: 2, role: 1 });
    assert!(matches!(promote_to_admin, Err(BackendError::InvalidValuesError)));
    let missing = switch_role(&mut directory, UserRoleUpdateDTO { user_id: 9, role: 4 });
    assert!(matches!(missing, Err(BackendError::ResourceNotFoundError)));
}

#[test]
fn valid_reports_live_token_of_existing_account() {
    let mut directory = UserDirectory::new();
    create_user(&mut directory, COST, dto("ana", "ana@example.com", "pw", 3)).unwrap();
    let auth = login(&directory, SECRET, credentials("ana@example.com", "pw"), NOW).unwrap();
    let probe = valid(&directory, SECRET, AuthenticationGuard(auth.token.clone()), NOW).unwrap();
    assert!(probe.valided);
    let expired = valid(
        &directory,
        SECRET,
        AuthenticationGuard(auth.token.clone()),
        NOW + TOKEN_LIFETIME_SECONDS,
    )
    .unwrap();
    assert!(!expired.valided);
    let garbage = valid(&directory, SECRET, AuthenticationGuard("no.token.here".to_string()), NOW)
        .unwrap();
    assert!(!garbage.valided);
}

#[test]
fn valid_flags_vanished_subject_as_internal_error() {
    let mut directory = UserDirectory::new();
    directory
        .insert("admin".to_string(), "admin@example.com".to_string(), "seed".to_string(), 1)
        .unwrap();
    create_user(&mut directory, COST, dto("ana", "ana@example.com", "pw", 3)).unwrap();
    let auth = login(&directory, SECRET, credentials("ana@example.com", "pw"), NOW).unwrap();
    delete_user_by_id(&mut directory, 2).unwrap();
    let probe = valid(&directory, SECRET, AuthenticationGuard(auth.token), NOW);
    assert!(matches!(probe, Err(BackendError::DatabaseError)));
}

#[test]
fn get_all_users_labels_roles() {
    let mut directory = UserDirectory::new();
    create_user(&mut directory, COST, dto("ger", "ger@example.com", "pw", 2)).unwrap();
    create_user(&mut directory, COST, dto("vis", "vis@example.com", "pw", 4)).unwrap();
    let listing = get_all_users(&directory);
    assert_eq!(listing.len(), 2);
    assert_eq!(listing[0].username, "ger");
    assert_eq!(listing[0].email, "ger@example.com");
    assert_eq!(listing[0].role, "Gerente");
    assert_eq!(listing[1].role, "Visualizador");
}
