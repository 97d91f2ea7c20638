use inventory_auth::category_dtos::{CategoryCreateDTO, CategoryDTO, CategoryViewDTO};
use inventory_auth::generic_dtos::ExistsDTO;
use inventory_auth::generic_functions::catch_backend_error;
use inventory_auth::errors::BackendError;
use inventory_auth::login_dtos as early_login;
use inventory_auth::product_dtos::{
    ProductChangeQuantityDTO, ProductCreateDTO, ProductDTO, ProductInformationsGetDTO,
    ProductInformationsViewDTO, ProductViewDTO,
};
use inventory_auth::reason_dtos::{ReasonCreateDTO, ReasonDTO};
use inventory_auth::report_dtos::ReportViewDTO;
use inventory_auth::return_reason_dtos::{ReturnReasonCreateDTO, ReturnReasonDTO};
use inventory_auth::role_dtos::{RoleCreateDTO, RoleDTO};
use inventory_auth::user_dtos::{
    AuthenticationDTO, LoginDTO, UserCreateDTO, UserCredentialsUpdateDTO,
    UserInformationsUpdateDTO, UserRoleUpdateDTO, UserSummaryForAdminDTO,
    UserSummaryForAdminQueryDTO, ValidedTokenDTO,
};
use inventory_auth::user_enums::UserRole;

#[test]
fn category_dtos_expose_their_fields() {
    let category = CategoryDTO::new(7, "Ferramentas".to_string());
    assert_eq!(*category.get_id(), 7);
    assert_eq!(category.get_name(), "Ferramentas");
    let create = CategoryCreateDTO { name: "Parafusos".to_string() };
    assert_eq!(create.get_name(), "Parafusos");
    let view = CategoryViewDTO { id: 1, name: "Cabos".to_string(), quantity: None };
    assert!(view.quantity.is_none());
}

#[test]
fn exists_dto_unwraps_its_flag() {
    assert!(ExistsDTO { exist: true }.get_into_exist());
    assert!(!ExistsDTO { exist: false }.get_into_exist());
}

#[test]
fn early_login_dto_exposes_its_fields() {
    let dto = early_login::LoginDTO { username: "ana".to_string(), password: "pw".to_string() };
    assert_eq!(dto.get_username(), "ana");
    assert_eq!(dto.get_password(), "pw");
}

#[test]
fn product_dtos_expose_their_fields() {
    let product =
        ProductDTO { id: 3, name: "Cabo".to_string(), quantity: 10, min_quantity: 2, category_id: 1 };
    assert_eq!(*product.get_id(), 3);
    assert_eq!(product.get_name(), "Cabo");
    assert_eq!(*product.get_quantity(), 10);
    assert_eq!(*product.get_min_quantity(), 2);
    assert_eq!(*product.get_category_id(), 1);

    let create = ProductCreateDTO { name: "Fio".to_string(), min_quantity: 5, category_id: 2 };
    assert_eq!(create.get_name(), "Fio");
    assert_eq!(*create.get_min_quantity(), 5);
    assert_eq!(*create.get_category_id(), 2);

    let view = ProductViewDTO::new(3, "Cabo".to_string(), 10, 2, "Eletrica".to_string());
    assert_eq!(view.id, 3);
    assert_eq!(view.category, "Eletrica");

    let change = ProductChangeQuantityDTO { id: 3, change_type: true, quantity: 4, reason_id: 9 };
    assert_eq!(*change.get_id(), 3);
    assert!(*change.get_change_type());
    assert_eq!(*change.get_quantity(), 4);
    assert_eq!(*change.get_reason_id(), 9);

    let figures = ProductInformationsGetDTO { quantity: Some(1), total: None, warnings: Some(0) };
    assert!(figures.total.is_none());
    let shown = ProductInformationsViewDTO { quantity: 1, total: 0, warnings: 0 };
    assert_eq!(shown.total, 0);
}

#[test]
fn reason_dtos_expose_their_fields() {
    let reason = ReasonDTO::new(4, "Venda".to_string());
    assert_eq!(*reason.get_id(), 4);
    assert_eq!(reason.get_name(), "Venda");
    assert_eq!(ReasonCreateDTO { name: "Perda".to_string() }.get_name(), "Perda");
    let returned = ReturnReasonDTO::new(5, "Defeito".to_string());
    assert_eq!(*returned.get_id(), 5);
    assert_eq!(returned.get_name(), "Defeito");
    assert_eq!(ReturnReasonCreateDTO { name: "Troca".to_string() }.get_name(), "Troca");
}

#[test]
fn report_view_dto_carries_all_columns() {
    let report =
        ReportViewDTO::new(1, false, 3, "Cabo".to_string(), "Venda".to_string(), "2024-01-01".to_string());
    assert_eq!(report.id, 1);
    assert!(!report.change_type);
    assert_eq!(report.quantity, 3);
    assert_eq!(report.product, "Cabo");
    assert_eq!(report.reason, "Venda");
    assert_eq!(report.date, "2024-01-01");
}

#[test]
fn role_dtos_expose_their_fields() {
    let create = RoleCreateDTO::new("Gerente".to_string());
    assert_eq!(create.get_name(), "Gerente");
    let role = RoleDTO::new(2, "Gerente".to_string());
    assert_eq!(*role.get_id(), 2);
    assert_eq!(role.get_name(), "Gerente");
}

#[test]
fn user_dtos_expose_their_fields() {
    let create = UserCreateDTO {
        username: "ana".to_string(),
        password: "pw".to_string(),
        email: "ana@example.com".to_string(),
        role: 3,
    };
    assert_eq!(create.get_username(), "ana");
    assert_eq!(create.get_password(), "pw");
    assert_eq!(create.get_email(), "ana@example.com");
    assert_eq!(*create.get_role(), 3);

    let role_update = UserRoleUpdateDTO { user_id: 2, role: 4 };
    assert_eq!(*role_update.get_user_id(), 2);
    assert_eq!(*role_update.get_role(), 4);

    let credentials =
        UserCredentialsUpdateDTO { old_password: "a".to_string(), new_password: "b".to_string() };
    assert_eq!(credentials.get_old_password(), "a");
    assert_eq!(credentials.get_new_password(), "b");

    let informations =
        UserInformationsUpdateDTO { username: "ana".to_string(), email: "a@b.c".to_string() };
    assert_eq!(informations.get_username(), "ana");
    assert_eq!(informations.get_email(), "a@b.c");

    let login = LoginDTO { email: "a@b.c".to_string(), password: "pw".to_string() };
    assert_eq!(login.get_email(), "a@b.c");
    assert_eq!(login.get_password(), "pw");

    let valided = ValidedTokenDTO::new(true);
    assert!(*valided.get_valided());

    let auth = AuthenticationDTO::new("tok".to_string(), 3, "ana".to_string(), "Operador".to_string());
    assert_eq!(auth.token, "tok");
    assert_eq!(auth.role, 3);
    assert_eq!(auth.username, "ana");
    assert_eq!(auth.rolename, "Operador");

    let query = UserSummaryForAdminQueryDTO {
        id: 1,
        username: "ana".to_string(),
        email: "a@b.c".to_string(),
        role: 3,
    };
    let summary = UserSummaryForAdminDTO {
        id: query.id,
        username: query.username.clone(),
        email: query.email.clone(),
        role: UserRole::code_to_string(query.role),
    };
    assert_eq!(summary.role, "Operador");
}

#[test]
fn role_codes_and_labels() {
    assert_eq!(UserRole::to_code(UserRole::Admin), 1);
    assert_eq!(UserRole::to_code(UserRole::Mannager), 2);
    assert_eq!(UserRole::to_code(UserRole::Operator), 3);
    assert_eq!(UserRole::to_code(UserRole::Viewer), 4);
    assert_eq!(UserRole::code_to_string(1), "Administrador");
    assert_eq!(UserRole::code_to_string(2), "Gerente");
    assert_eq!(UserRole::code_to_string(3), "Operador");
    assert_eq!(UserRole::code_to_string(4), "Visualizador");
    assert_eq!(UserRole::code_to_string(0), "Visualizador");
    assert_eq!(UserRole::code_to_string(99), "Visualizador");
}

#[test]
fn error_responses_keep_stable_statuses_and_messages() {
    let internal = catch_backend_error(BackendError::DatabaseError);
    assert_eq!(internal.status, 500);
    assert_eq!(internal.message, "Erro interno do sistema");
    assert_eq!(catch_backend_error(BackendError::ResourceAlreadyInsertedError).status, 409);
    assert_eq!(catch_backend_error(BackendError::ResourceNotFoundError).status, 404);
    assert_eq!(catch_backend_error(BackendError::ResourceConflitUpdateError).status, 409);
    let credentials = catch_backend_error(BackendError::InvalidCredentialsError);
    assert_eq!(credentials.status, 403);
    assert_eq!(credentials.message, "As credenciais inserídas são inválidas");
    assert_eq!(catch_backend_error(BackendError::InvalidValuesError).status, 400);
}
