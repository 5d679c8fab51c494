//! The shapes that requests and responses take, and how a user record is
//! turned into what a client may see.

use vstd::prelude::*;

use crate::user::User;

verus! {

/// The body of a registration request.
#[derive(Debug, Default, Clone)]
pub struct RegisterUserDto {
    pub name: String,
    pub email: String,
    pub password: String,
    pub password_confirmation: String,
}

/// The body of a login request.
#[derive(Debug, Default, Clone)]
pub struct LoginUserDto {
    pub email: String,
    pub password: String,
}

/// The paging parameters of a list request.
#[derive(Debug)]
pub struct RequestQueryDto {
    pub page: Option<usize>,
    pub limit: Option<usize>,
}

/// A user without the password: what leaves the server.
#[derive(Debug)]
pub struct FilterUserDto {
    pub id: String,
    pub name: String,
    pub email: String,
    pub role: String,
    pub photo: String,
    pub verified: bool,
    pub created_at: i64,
    pub updated_at: i64,
}

#[derive(Debug)]
pub struct UserData {
    pub user: FilterUserDto,
}

#[derive(Debug)]
pub struct UserResponseDto {
    pub status: String,
    pub data: UserData,
}

#[derive(Debug)]
pub struct UserListResponseDto {
    pub status: String,
    pub data: Vec<FilterUserDto>,
    pub results: usize,
}

#[derive(Debug)]
pub struct UserLoginResponseDto {
    pub status: String,
    pub token: String,
}

/// The JSON body of an error or health response.
#[derive(Debug)]
pub struct Response {
    pub status: &'static str,
    pub message: String,
}

/// The page asked for when the request names none.
pub const DEFAULT_PAGE: usize = 1;

/// The page size used when the request names none.
pub const DEFAULT_LIMIT: usize = 10;

/// The largest page size a request may ask for.
pub const MAX_LIMIT: usize = 50;

impl RequestQueryDto {
    /// The bounds on a list request: a page, where given, is at least one,
    /// and a page size, where given, lies between one and fifty.
    pub open spec fn in_range(self) -> bool {
        &&& self.page matches Some(page) ==> page >= 1
        &&& self.limit matches Some(limit) ==> 1 <= limit <= MAX_LIMIT
    }

    pub fn is_in_range(&self) -> (ok: bool)
        ensures
            ok == self.in_range(),
    {
        let page_ok = match self.page {
            Some(page) => page >= 1,
            None => true,
        };
        let limit_ok = match self.limit {
            Some(limit) => 1 <= limit && limit <= MAX_LIMIT,
            None => true,
        };
        page_ok && limit_ok
    }

    /// The page to fetch, by default the first, as the 32-bit number the
    /// store takes.
    pub open spec fn page_number(self) -> u32 {
        self.page.unwrap_or(DEFAULT_PAGE) as u32
    }

    /// The page size, by default ten, as the 32-bit number the store takes.
    pub open spec fn page_size(self) -> u32 {
        self.limit.unwrap_or(DEFAULT_LIMIT) as u32
    }

    /// The page and the page size to ask the store for. A number too large
    /// for 32 bits keeps its low 32 bits.
    pub fn page_and_limit(&self) -> (res: (u32, u32))
        ensures
            res.0 == self.page_number(),
            res.1 == self.page_size(),
            self.page is None ==> res.0 == 1,
            self.limit is None ==> res.1 == 10,
            self.page matches Some(p) ==> (p <= u32::MAX ==> res.0 == p),
            self.limit matches Some(l) ==> (l <= u32::MAX ==> res.1 == l),
            self.in_range() ==> 1 <= res.1 <= MAX_LIMIT,
    {
        let page = self.page.unwrap_or(DEFAULT_PAGE);
        let limit = self.limit.unwrap_or(DEFAULT_LIMIT);
        (#[verifier::truncate] (page as u32), #[verifier::truncate] (limit as u32))
    }
}

/// The number of rows that come before a page of the given size.
pub open spec fn rows_before(page: u32, limit: u32) -> int {
    (page - 1) * limit
}

/// The offset at which a page starts; `None` where it does not fit in the
/// 64 bits that the store takes.
pub fn page_offset(page: u32, limit: u32) -> (offset: Option<i64>)
    ensures
        match offset {
            Some(rows) => rows == rows_before(page, limit),
            None => rows_before(page, limit) > i64::MAX,
        },
        1 <= page && limit <= MAX_LIMIT ==> offset is Some,
{
    let pages: i128 = page as i128 - 1;
    let size: i128 = limit as i128;
    assert(-0x1_0000_0000 <= pages * size <= 0x1_0000_0000 * 0x1_0000_0000) by (nonlinear_arith)
        requires
            -1 <= pages < 0x1_0000_0000,
            0 <= size < 0x1_0000_0000,
    ;
    assert(0 <= pages && size <= 50 ==> pages * size <= 0x1_0000_0000 * 50) by (nonlinear_arith)
        requires
            pages < 0x1_0000_0000,
            0 <= size,
    ;
    let rows: i128 = pages * size;
    if rows > i64::MAX as i128 {
        None
    } else {
        Some(rows as i64)
    }
}

impl FilterUserDto {
    /// `self` shows `user`: every field but the password, the role by its
    /// canonical text.
    pub open spec fn shows(self, user: User) -> bool {
        &&& self.id@ == user.id@
        &&& self.name@ == user.name@
        &&& self.email@ == user.email@
        &&& self.role@ == user.role.text()
        &&& self.photo@ == user.photo@
        &&& self.verified == user.verified
        &&& self.created_at == user.created_at
        &&& self.updated_at == user.updated_at
    }

    pub fn filter_user(user: &User) -> (dto: FilterUserDto)
        ensures
            dto.shows(*user),
    {
        FilterUserDto {
            id: user.id.clone(),
            name: user.name.clone(),
            email: user.email.clone(),
            role: user.role.to_str().to_owned(),
            photo: user.photo.clone(),
            verified: user.verified,
            created_at: user.created_at,
            updated_at: user.updated_at,
        }
    }

    pub fn filter_users(users: &[User]) -> (dtos: Vec<FilterUserDto>)
        ensures
            dtos@.len() == users@.len(),
            forall|i: int| 0 <= i < users@.len() ==> (#[trigger] dtos@[i]).shows(users@[i]),
    {
        let mut dtos: Vec<FilterUserDto> = Vec::new();
        let mut i: usize = 0;
        while i < users.len()
            invariant
                i <= users@.len(),
                dtos@.len() == i,
                forall|k: int| 0 <= k < i ==> (#[trigger] dtos@[k]).shows(users@[k]),
            decreases users@.len() - i,
        {
            dtos.push(FilterUserDto::filter_user(&users[i]));
            i += 1;
        }
        dtos
    }
}

impl UserResponseDto {
    /// The answer to "who am I": the authenticated user, filtered.
    pub fn success(user: &User) -> (body: UserResponseDto)
        ensures
            body.status@ == "success"@,
            body.data.user.shows(*user),
    {
        UserResponseDto {
            status: "success".to_owned(),
            data: UserData { user: FilterUserDto::filter_user(user) },
        }
    }
}

impl UserListResponseDto {
    /// The answer to a list request: the users of the page, filtered and
    /// counted.
    pub fn success(users: &[User]) -> (body: UserListResponseDto)
        ensures
            body.status@ == "success"@,
            body.results == users@.len(),
            body.data@.len() == users@.len(),
            forall|i: int| 0 <= i < users@.len() ==> (#[trigger] body.data@[i]).shows(users@[i]),
    {
        UserListResponseDto {
            status: "success".to_owned(),
            data: FilterUserDto::filter_users(users),
            results: users.len(),
        }
    }
}

impl UserLoginResponseDto {
    /// The answer to a login: the token just issued.
    pub fn success(token: String) -> (body: UserLoginResponseDto)
        ensures
            body.status@ == "success"@,
            body.token == token,
    {
        UserLoginResponseDto { status: "success".to_owned(), token }
    }
}

} // verus!
