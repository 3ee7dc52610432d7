use vstd::prelude::*;

verus! {

/// The identifier authority of the "everyone" principal.
pub const SECURITY_WORLD_SID_AUTHORITY: u64 = 1;

/// The identifier authority of principals logged on locally.
pub const SECURITY_LOCAL_SID_AUTHORITY: u64 = 2;

/// The relative identifier of the "everyone" principal.
pub const SECURITY_WORLD_RID: u32 = 0;

/// The relative identifier of the local-logon principal.
pub const SECURITY_LOCAL_RID: u32 = 0;

/// The trustee is named by a security identifier.
pub const TRUSTEE_IS_SID: u32 = 0;

/// The trustee is a group of principals.
pub const TRUSTEE_IS_GROUP: u32 = 2;

/// Access mode that replaces whatever the trustee was granted before.
pub const SET_ACCESS: u32 = 2;

/// The entry is not inherited by child objects.
pub const NO_INHERITANCE: u32 = 0;

/// Every access right: the standard rights but `SYNCHRONIZE`, and all
/// specific rights.
pub const KEY_ALL_ACCESS: u32 = 0xf003f;

/// The largest identifier authority: it is a 48-bit value.
pub const MAX_SID_AUTHORITY: u64 = 0xffff_ffff_ffff;

/// The largest number of sub-authorities a security identifier holds.
pub const MAX_SUB_AUTHORITIES: u8 = 8;

/// A security identifier: an identifier authority and one to eight
/// sub-authorities. It owns its values; the runtime allocates the system's
/// copy from them and frees it again.
#[derive(Clone, Copy, Debug)]
pub struct Sid {
    pub authority: u64,
    pub sub_authority_count: u8,
    pub sub_authorities: [u32; 8],
}

/// What a security identifier stands for.
pub struct SidView {
    pub authority: nat,
    pub sub_authorities: Seq<u32>,
}

impl View for Sid {
    type V = SidView;

    open spec fn view(&self) -> SidView {
        SidView {
            authority: self.authority as nat,
            sub_authorities: self.sub_authorities@.take(self.sub_authority_count as int),
        }
    }
}

impl Sid {
    pub open spec fn wf(&self) -> bool {
        &&& self.authority <= MAX_SID_AUTHORITY
        &&& 1 <= self.sub_authority_count <= MAX_SUB_AUTHORITIES
    }

    /// Builds an identifier from an authority and the first `auth_count` of
    /// `subauth`. Returns `None` where the authority does not fit in 48 bits or
    /// the count is not between one and eight.
    pub fn from_raw(authority: u64, auth_count: u8, subauth: [u32; 8]) -> (r: Option<Sid>)
        ensures
            r is Some <==> (authority <= MAX_SID_AUTHORITY && 1 <= auth_count <= MAX_SUB_AUTHORITIES),
            r matches Some(sid) ==> {
                &&& sid.wf()
                &&& sid@.authority == authority
                &&& sid@.sub_authorities == subauth@.take(auth_count as int)
            },
    {
        if authority <= MAX_SID_AUTHORITY && 1 <= auth_count && auth_count <= MAX_SUB_AUTHORITIES {
            Some(Sid { authority, sub_authority_count: auth_count, sub_authorities: subauth })
        } else {
            None
        }
    }

    /// The "everyone" principal.
    pub fn world() -> (r: Sid)
        ensures
            r == world_sid(),
            r.wf(),
            r@.authority == SECURITY_WORLD_SID_AUTHORITY,
            r@.sub_authorities == seq![SECURITY_WORLD_RID],
    {
        let r = Sid {
            authority: SECURITY_WORLD_SID_AUTHORITY,
            sub_authority_count: 1,
            sub_authorities: [SECURITY_WORLD_RID, 0, 0, 0, 0, 0, 0, 0],
        };
        assert(r@.sub_authorities =~= seq![SECURITY_WORLD_RID]);
        r
    }

    /// The principal of users logged on locally.
    pub fn local() -> (r: Sid)
        ensures
            r.wf(),
            r@.authority == SECURITY_LOCAL_SID_AUTHORITY,
            r@.sub_authorities == seq![SECURITY_LOCAL_RID],
    {
        let r = Sid {
            authority: SECURITY_LOCAL_SID_AUTHORITY,
            sub_authority_count: 1,
            sub_authorities: [SECURITY_LOCAL_RID, 0, 0, 0, 0, 0, 0, 0],
        };
        assert(r@.sub_authorities =~= seq![SECURITY_LOCAL_RID]);
        r
    }
}

/// The principal that an access-control entry applies to.
#[derive(Clone, Copy, Debug)]
pub struct Trustee {
    pub form: u32,
    pub trustee_type: u32,
    pub sid: Sid,
}

impl Trustee {
    /// A trustee of the given form and type that names `sid`.
    pub fn from_raw_sid(form: u32, ty: u32, sid: Sid) -> (r: Trustee)
        ensures
            r == (Trustee { form, trustee_type: ty, sid }),
    {
        Trustee { form, trustee_type: ty, sid }
    }

    /// The "everyone" group, named by its security identifier.
    pub fn world() -> (r: Trustee)
        ensures
            r == world_trustee(),
            r.sid.wf(),
    {
        Self::from_raw_sid(TRUSTEE_IS_SID, TRUSTEE_IS_GROUP, Sid::world())
    }
}

/// One access-control entry: which rights, how they combine with earlier
/// grants, how they are inherited, and to whom they apply.
#[derive(Clone, Copy, Debug)]
pub struct ExplicitAccess {
    pub access_permissions: u32,
    pub access_mode: u32,
    pub inheritance: u32,
    pub trustee: Trustee,
}

impl ExplicitAccess {
    pub fn from_raw(access_permissions: u32, access_mode: u32, inheritance: u32, trustee: Trustee) -> (r: ExplicitAccess)
        ensures
            r == (ExplicitAccess { access_permissions, access_mode, inheritance, trustee }),
    {
        ExplicitAccess { access_permissions, access_mode, inheritance, trustee }
    }

    /// Every right for `trustee`, replacing earlier grants, not inherited.
    pub fn all_access(trustee: &Trustee) -> (r: ExplicitAccess)
        ensures
            r == all_access_entry(*trustee),
    {
        Self::from_raw(KEY_ALL_ACCESS, SET_ACCESS, NO_INHERITANCE, *trustee)
    }
}

/// The "everyone" group as a trustee.
pub open spec fn world_trustee() -> Trustee {
    Trustee {
        form: TRUSTEE_IS_SID,
        trustee_type: TRUSTEE_IS_GROUP,
        sid: world_sid(),
    }
}

/// The "everyone" principal: the world authority and its one relative
/// identifier.
pub open spec fn world_sid() -> Sid {
    Sid {
        authority: SECURITY_WORLD_SID_AUTHORITY,
        sub_authority_count: 1,
        sub_authorities: [SECURITY_WORLD_RID, 0, 0, 0, 0, 0, 0, 0],
    }
}

/// The entry that grants `trustee` every right, without inheritance.
pub open spec fn all_access_entry(trustee: Trustee) -> ExplicitAccess {
    ExplicitAccess {
        access_permissions: KEY_ALL_ACCESS,
        access_mode: SET_ACCESS,
        inheritance: NO_INHERITANCE,
        trustee,
    }
}

/// Copies `entries` into a vector of their own.
fn copy_entries(entries: &[ExplicitAccess]) -> (r: Vec<ExplicitAccess>)
    ensures
        r@ == entries@,
{
    let mut r: Vec<ExplicitAccess> = Vec::new();
    let mut i: usize = 0;
    while i < entries.len()
        invariant
            i <= entries@.len(),
            r@ == entries@.take(i as int),
        decreases entries@.len() - i,
    {
        r.push(entries[i]);
        i = i + 1;
        assert(r@ =~= entries@.take(i as int));
    }
    assert(entries@.take(entries@.len() as int) =~= entries@);
    r
}

/// An access-control list: its entries, in the order they were given.
#[derive(Debug)]
pub struct Acl {
    pub entries: Vec<ExplicitAccess>,
}

impl View for Acl {
    type V = Seq<ExplicitAccess>;

    open spec fn view(&self) -> Seq<ExplicitAccess> {
        self.entries@
    }
}

impl Acl {
    /// A list holding `explicit_accesses`, which are left as they were.
    pub fn new(explicit_accesses: &mut [ExplicitAccess]) -> (r: Acl)
        ensures
            r@ == old(explicit_accesses)@,
            final(explicit_accesses)@ == old(explicit_accesses)@,
    {
        Acl { entries: copy_entries(explicit_accesses) }
    }

    /// A second list with the same entries.
    pub fn duplicate(&self) -> (r: Acl)
        ensures
            r@ == self@,
    {
        Acl { entries: copy_entries(self.entries.as_slice()) }
    }
}

/// A security descriptor: at the system's descriptor revision, with an
/// optional discretionary access-control list. Without a list the system's
/// default access applies.
#[derive(Debug)]
pub struct SecurityDescriptor {
    pub dacl: Option<Acl>,
}

impl View for SecurityDescriptor {
    type V = Option<Seq<ExplicitAccess>>;

    open spec fn view(&self) -> Option<Seq<ExplicitAccess>> {
        match self.dacl {
            Some(acl) => Some(acl@),
            None => None,
        }
    }
}

impl SecurityDescriptor {
    /// An initialized descriptor without a discretionary list.
    pub fn new() -> (r: SecurityDescriptor)
        ensures
            r@ is None,
    {
        SecurityDescriptor { dacl: None }
    }

    /// Attaches `acl` as the discretionary list: not a default, not
    /// protected. It replaces any list attached before.
    pub fn set_security_descriptor(&mut self, acl: Acl)
        ensures
            final(self)@ == Some(acl@),
    {
        self.dacl = Some(acl);
    }

    /// A descriptor whose list grants everyone every right.
    pub fn world() -> (r: SecurityDescriptor)
        ensures
            r@ == Some(seq![all_access_entry(world_trustee())]),
    {
        let mut sd = Self::new();
        let trustee = Trustee::world();
        let ea = ExplicitAccess::all_access(&trustee);
        let mut entries = [ea];
        let acl = Acl::new(&mut entries);
        assert(acl@ =~= seq![all_access_entry(world_trustee())]);
        sd.set_security_descriptor(acl);
        sd
    }

    /// A second descriptor with the same list.
    pub fn duplicate(&self) -> (r: SecurityDescriptor)
        ensures
            r@ == self@,
    {
        match &self.dacl {
            Some(acl) => SecurityDescriptor { dacl: Some(acl.duplicate()) },
            None => SecurityDescriptor { dacl: None },
        }
    }
}

/// The attributes a pipe instance is created with: the descriptor to apply,
/// if any, and whether child processes inherit the handle.
#[derive(Debug)]
pub struct SecurityAttributes {
    pub security_descriptor: Option<SecurityDescriptor>,
    pub inherit_handle: bool,
}

impl SecurityAttributes {
    /// Attributes that apply `security_descriptor`, which is left unchanged.
    pub fn new(security_descriptor: &mut SecurityDescriptor, inherit_handle: bool) -> (r: SecurityAttributes)
        ensures
            final(security_descriptor)@ == old(security_descriptor)@,
            r.security_descriptor matches Some(d) && d@ == old(security_descriptor)@,
            r.inherit_handle == inherit_handle,
    {
        SecurityAttributes {
            security_descriptor: Some(security_descriptor.duplicate()),
            inherit_handle,
        }
    }

    /// A second set of attributes with the same descriptor and flag.
    pub fn duplicate(&self) -> (r: SecurityAttributes)
        ensures
            r.inherit_handle == self.inherit_handle,
            r.security_descriptor is Some <==> self.security_descriptor is Some,
            r.security_descriptor matches Some(d) ==> self.security_descriptor matches Some(e) && d@ == e@,
    {
        match &self.security_descriptor {
            Some(d) => SecurityAttributes { security_descriptor: Some(d.duplicate()), inherit_handle: self.inherit_handle },
            None => SecurityAttributes { security_descriptor: None, inherit_handle: self.inherit_handle },
        }
    }
}

impl Default for SecurityAttributes {
    /// No descriptor, so the system's default access applies; the handle is
    /// not inherited.
    fn default() -> (r: SecurityAttributes)
        ensures
            r.security_descriptor is None,
            !r.inherit_handle,
    {
        SecurityAttributes { security_descriptor: None, inherit_handle: false }
    }
}

} // verus!
