use vstd::prelude::*;

verus! {

/// A successful API payload: a human-readable message beside the data.
/// The transport renders it as `{"message": ..., "data": ...}`.
pub struct ApiResponse<T> {
    pub message: String,
    pub data: T,
}

impl<T> ApiResponse<T> {
    /// Wraps `data` under the default message.
    pub fn new(data: T) -> (r: ApiResponse<T>)
        ensures
            r.message@ == "OK"@,
            r.data == data,
    {
        ApiResponse { message: "OK".to_owned(), data }
    }

    /// Wraps `data` under a caller-chosen message.
    pub fn new_with_message(message: String, data: T) -> (r: ApiResponse<T>)
        ensures
            r.message == message,
            r.data == data,
    {
        ApiResponse { message, data }
    }
}

/// The closed set of failure kinds.  Every fallible operation of the core
/// reports one of these; the wire status code and body shape are a pure
/// function of the value (`status_of`, `body_of`).
#[derive(Debug, PartialEq, Eq)]
pub enum ApiError {
    /// An unexpected internal failure; `cause` carries the root cause's text
    /// when the failure had an underlying cause.
    Internal { title: String, cause: Option<String> },
    /// Missing, malformed or rejected proof of identity.  Deliberately
    /// opaque: the cause of the rejection is never distinguished.
    Unauthorized,
    /// A storage-layer failure; `constraint` names the violated database
    /// constraint when the storage layer reported one.
    Storage { message: String, constraint: Option<String> },
    /// Field-level validation failures: per field, the messages in the order
    /// they were encountered, fields in first-seen order.
    UnprocessableEntity { errors: Vec<(String, Vec<String>)> },
    /// The request body could not be deserialized; carries the rejection's
    /// own status and text.
    ValidationRejection { status: u16, body: String },
    /// The escape hatch: a caller-chosen status, title and message.
    Custom { status: u16, title: String, message: String },
}

/// The mathematical shadow of `ApiError`, over sequences of characters.
pub enum ErrView {
    Internal { title: Seq<char>, cause: Option<Seq<char>> },
    Unauthorized,
    Storage { message: Seq<char>, constraint: Option<Seq<char>> },
    UnprocessableEntity { errors: Seq<(Seq<char>, Seq<Seq<char>>)> },
    ValidationRejection { status: u16, body: Seq<char> },
    Custom { status: u16, title: Seq<char>, message: Seq<char> },
}

impl View for ApiError {
    type V = ErrView;

    open spec fn view(&self) -> ErrView {
        match self {
            ApiError::Internal { title, cause } => ErrView::Internal {
                title: title@,
                cause: cause.deep_view(),
            },
            ApiError::Unauthorized => ErrView::Unauthorized,
            ApiError::Storage { message, constraint } => ErrView::Storage {
                message: message@,
                constraint: constraint.deep_view(),
            },
            ApiError::UnprocessableEntity { errors } => ErrView::UnprocessableEntity {
                errors: errors.deep_view(),
            },
            ApiError::ValidationRejection { status, body } => ErrView::ValidationRejection {
                status: *status,
                body: body@,
            },
            ApiError::Custom { status, title, message } => ErrView::Custom {
                status: *status,
                title: title@,
                message: message@,
            },
        }
    }
}

/// The canonical wire status of each failure kind.
pub open spec fn status_of(e: ErrView) -> u16 {
    match e {
        ErrView::Internal { .. } => 500,
        ErrView::Unauthorized => 401,
        ErrView::Storage { .. } => 500,
        ErrView::UnprocessableEntity { .. } => 422,
        ErrView::ValidationRejection { status, .. } => status,
        ErrView::Custom { status, .. } => status,
    }
}

/// Groups repeated `(field, message)` pairs: one entry per field, fields in
/// the order of their first occurrence, messages per field in encounter order.
pub open spec fn group_spec(pairs: Seq<(Seq<char>, Seq<char>)>) -> Seq<(Seq<char>, Seq<Seq<char>>)>
    decreases pairs.len(),
{
    if pairs.len() == 0 {
        Seq::empty()
    } else {
        let prev = group_spec(pairs.drop_last());
        let key = pairs.last().0;
        let msg = pairs.last().1;
        if exists|i: int| 0 <= i < prev.len() && prev[i].0 == key {
            let i = choose|i: int| 0 <= i < prev.len() && prev[i].0 == key;
            prev.update(i, (key, prev[i].1.push(msg)))
        } else {
            prev.push((key, seq![msg]))
        }
    }
}

/// No two entries of a grouped error list name the same field.
pub open spec fn distinct_keys(s: Seq<(Seq<char>, Seq<Seq<char>>)>) -> bool {
    forall|i: int, j: int| 0 <= i < j < s.len() ==> s[i].0 != s[j].0
}

impl ApiError {
    /// The wire status code: a pure function of the failure kind.
    pub fn status_code(&self) -> (code: u16)
        ensures
            code == status_of(self@),
    {
        match self {
            ApiError::Internal { .. } => 500,
            ApiError::Unauthorized => 401,
            ApiError::Storage { .. } => 500,
            ApiError::UnprocessableEntity { .. } => 422,
            ApiError::ValidationRejection { status, .. } => *status,
            ApiError::Custom { status, .. } => *status,
        }
    }

    /// Builds the field-level validation failure from repeated
    /// `(field, message)` pairs, grouping them as `group_spec` says.
    pub fn unprocessable_entity(pairs: Vec<(String, String)>) -> (r: ApiError)
        ensures
            r@ == (ErrView::UnprocessableEntity { errors: group_spec(pairs.deep_view()) }),
    {
        let mut errors: Vec<(String, Vec<String>)> = Vec::new();
        let mut k: usize = 0;
        while k < pairs.len()
            invariant
                k <= pairs@.len(),
                errors.deep_view() == group_spec(pairs.deep_view().take(k as int)),
                distinct_keys(errors.deep_view()),
            decreases pairs@.len() - k,
        {
            let key = pairs[k].0.clone();
            let msg = pairs[k].1.clone();
            let ghost prev = errors.deep_view();
            let ghost prefix = pairs.deep_view().take(k as int);
            let mut j: usize = 0;
            let mut found: bool = false;
            let mut pos: usize = 0;
            while j < errors.len() && !found
                invariant
                    j <= errors@.len(),
                    !found ==> forall|t: int| 0 <= t < j ==> errors.deep_view()[t].0 != key@,
                    found ==> pos < errors@.len() && errors.deep_view()[pos as int].0 == key@,
                decreases errors@.len() - j + (if found { 0int } else { 1int }),
            {
                if errors[j].0 == key {
                    found = true;
                    pos = j;
                } else {
                    j += 1;
                }
            }
            proof {
                assert(pairs.deep_view().take(k + 1).drop_last() =~= prefix);
                assert(pairs.deep_view().take(k + 1).last() == (key@, msg@));
            }
            if found {
                let mut entry = errors.remove(pos);
                entry.1.push(msg);
                errors.insert(pos, entry);
                proof {
                    let i = choose|i: int|
                        0 <= i < prev.len() && prev[i].0 == (key@, msg@).0;
                    assert(prev[pos as int].0 == key@);
                    assert(i == pos);
                    assert(errors.deep_view() =~~= prev.update(
                        pos as int,
                        (key@, prev[pos as int].1.push(msg@)),
                    ));
                    assert(errors.deep_view() == group_spec(pairs.deep_view().take(k + 1)));
                }
            } else {
                let mut msgs: Vec<String> = Vec::new();
                msgs.push(msg);
                errors.push((key, msgs));
                proof {
                    assert(!(exists|i: int|
                        0 <= i < prev.len() && prev[i].0 == (key@, msg@).0));
                    assert(errors.deep_view() =~~= prev.push((key@, seq![msg@])));
                    assert(errors.deep_view() == group_spec(pairs.deep_view().take(k + 1)));
                }
            }
            k += 1;
        }
        proof {
            assert(pairs.deep_view().take(pairs@.len() as int) =~= pairs.deep_view());
        }
        ApiError::UnprocessableEntity { errors }
    }

    /// The escape hatch: a failure with a caller-chosen status, title and
    /// message.
    pub fn custom(status: u16, title: String, message: String) -> (r: ApiError)
        ensures
            r@ == (ErrView::Custom { status, title: title@, message: message@ }),
    {
        ApiError::Custom { status, title, message }
    }
}

/// The structured wire body of a failure: a title, a message, and the
/// optional per-field details, omitted (`None`) when empty.  The transport
/// renders it as `{"title", "message", "details"?}`.
pub struct ErrorBody {
    pub title: String,
    pub message: String,
    pub details: Option<Vec<(String, Vec<String>)>>,
}

/// The mathematical shadow of `ErrorBody`.
pub struct ErrBodyView {
    pub title: Seq<char>,
    pub message: Seq<char>,
    pub details: Option<Seq<(Seq<char>, Seq<Seq<char>>)>>,
}

impl View for ErrorBody {
    type V = ErrBodyView;

    open spec fn view(&self) -> ErrBodyView {
        ErrBodyView {
            title: self.title@,
            message: self.message@,
            details: match &self.details {
                Some(d) => Some(d.deep_view()),
                None => None,
            },
        }
    }
}

/// The canonical body of each failure kind.
pub open spec fn body_of(e: ErrView) -> ErrBodyView {
    match e {
        ErrView::Internal { title, cause } => ErrBodyView {
            title,
            message: match cause {
                Some(c) => c,
                None => Seq::empty(),
            },
            details: None,
        },
        ErrView::Unauthorized => ErrBodyView {
            title: "認證失敗"@,
            message: Seq::empty(),
            details: None,
        },
        ErrView::Storage { message, .. } => ErrBodyView {
            title: "資料庫錯誤"@,
            message,
            details: None,
        },
        ErrView::UnprocessableEntity { errors } => ErrBodyView {
            title: "資料有誤"@,
            message: Seq::empty(),
            details: if errors.len() == 0 {
                None
            } else {
                Some(errors)
            },
        },
        ErrView::ValidationRejection { body, .. } => ErrBodyView {
            title: "JSON 格式錯誤"@,
            message: body,
            details: None,
        },
        ErrView::Custom { title, message, .. } => ErrBodyView { title, message, details: None },
    }
}

impl ApiError {
    /// Renders the failure for the wire: its canonical status code beside its
    /// canonical structured body.
    pub fn into_response_parts(self) -> (r: (u16, ErrorBody))
        ensures
            r.0 == status_of(self@),
            r.1@ == body_of(self@),
    {
        let status = self.status_code();
        let body = match self {
            ApiError::Internal { title, cause } => ErrorBody {
                title,
                message: match cause {
                    Some(c) => c,
                    None => String::new(),
                },
                details: None,
            },
            ApiError::Unauthorized => ErrorBody {
                title: "認證失敗".to_owned(),
                message: String::new(),
                details: None,
            },
            ApiError::Storage { message, .. } => ErrorBody {
                title: "資料庫錯誤".to_owned(),
                message,
                details: None,
            },
            ApiError::UnprocessableEntity { errors } => ErrorBody {
                title: "資料有誤".to_owned(),
                message: String::new(),
                details: if errors.len() == 0 {
                    None
                } else {
                    Some(errors)
                },
            },
            ApiError::ValidationRejection { body, .. } => ErrorBody {
                title: "JSON 格式錯誤".to_owned(),
                message: body,
                details: None,
            },
            ApiError::Custom { title, message, .. } => ErrorBody { title, message, details: None },
        };
        (status, body)
    }
}

/// Whether a failure is the storage layer's report of the named violated
/// constraint.
pub open spec fn is_constraint(e: ErrView, name: Seq<char>) -> bool {
    e matches ErrView::Storage { constraint: Some(c), .. } && c == name
}

/// When storage reported exactly the named constraint violation, replace the
/// failure; every other value passes through unchanged.  Chained calls try
/// their names in order, and the first match wins.
pub fn on_constraint<T>(r: Result<T, ApiError>, name: &str, replacement: ApiError) -> (out: Result<
    T,
    ApiError,
>)
    ensures
        (r matches Err(e) && is_constraint(e@, name@)) ==> out == Result::<T, ApiError>::Err(
            replacement,
        ),
        (r matches Err(e) && !is_constraint(e@, name@)) ==> out == r,
        r matches Ok(_) ==> out == r,
{
    match r {
        Ok(v) => Ok(v),
        Err(e) => match e {
            ApiError::Storage { message, constraint } => match constraint {
                Some(c) => {
                    if c == name.to_owned() {
                        Err(replacement)
                    } else {
                        Err(ApiError::Storage { message, constraint: Some(c) })
                    }
                },
                None => Err(ApiError::Storage { message, constraint: None }),
            },
            other => Err(other),
        },
    }
}

} // verus!
