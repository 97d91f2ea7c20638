//! Mapping of backend errors to the stable external status and message
//! each is reported with.

use vstd::prelude::*;

use crate::errors::BackendError;

verus! {

/// An HTTP-equivalent status code paired with the client-visible
/// message.
pub struct ErrorResponse {
    pub status: u16,
    pub message: String,
}

/// The status code each error is reported with. A storage fault surfaces
/// as a generic internal error; every client-fault error keeps its own
/// stable status.
pub open spec fn spec_status_of(backend_error: BackendError) -> u16 {
    match backend_error {
        BackendError::DatabaseError => 500,
        BackendError::ResourceAlreadyInsertedError => 409,
        BackendError::ResourceNotFoundError => 404,
        BackendError::ResourceConflitUpdateError => 409,
        BackendError::InvalidCredentialsError => 403,
        BackendError::InvalidValuesError => 400,
    }
}

/// The client-visible message of each error; a storage fault leaks no
/// storage detail.
pub open spec fn spec_message_of(backend_error: BackendError) -> Seq<char> {
    match backend_error {
        BackendError::DatabaseError => "Erro interno do sistema"@,
        BackendError::ResourceAlreadyInsertedError => "Uma entidade com o identificador desejado já existe"@,
        BackendError::ResourceNotFoundError => "Entidade não encontrada"@,
        BackendError::ResourceConflitUpdateError => "A entidade possuí identificadores presentes em outras entidades já salvas"@,
        BackendError::InvalidCredentialsError => "As credenciais inserídas são inválidas"@,
        BackendError::InvalidValuesError => "Um ou mais valores enviados são inválidas"@,
    }
}

/// Recovers any backend error into its stable external status and
/// message.
pub fn catch_backend_error(backend_error: BackendError) -> (r: ErrorResponse)
    ensures
        r.status == spec_status_of(backend_error),
        r.message@ == spec_message_of(backend_error),
{
    match backend_error {
        BackendError::DatabaseError => ErrorResponse {
            status: 500,
            message: "Erro interno do sistema".to_owned(),
        },
        BackendError::ResourceAlreadyInsertedError => ErrorResponse {
            status: 409,
            message: "Uma entidade com o identificador desejado já existe".to_owned(),
        },
        BackendError::ResourceNotFoundError => ErrorResponse {
            status: 404,
            message: "Entidade não encontrada".to_owned(),
        },
        BackendError::ResourceConflitUpdateError => ErrorResponse {
            status: 409,
            message: "A entidade possuí identificadores presentes em outras entidades já salvas".to_owned(),
        },
        BackendError::InvalidCredentialsError => ErrorResponse {
            status: 403,
            message: "As credenciais inserídas são inválidas".to_owned(),
        },
        BackendError::InvalidValuesError => ErrorResponse {
            status: 400,
            message: "Um ou mais valores enviados são inválidas".to_owned(),
        },
    }
}

} // verus!
