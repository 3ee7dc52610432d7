use tokio_named_pipe::config::{NamedPipeConfig, DEFAULT_BUFFER_SIZE};
use tokio_named_pipe::secattr::{
    Acl, ExplicitAccess, SecurityAttributes, SecurityDescriptor, Sid, Trustee, KEY_ALL_ACCESS,
    NO_INHERITANCE, SET_ACCESS, TRUSTEE_IS_GROUP, TRUSTEE_IS_SID,
};

fn subs(sid: &Sid) -> Vec<u32> {
    sid.sub_authorities[..sid.sub_authority_count as usize].to_vec()
}

#[test]
fn test_acl() {
    let sd = SecurityDescriptor::world();
    assert!(sd.dacl.is_some());
}

#[test]
fn world_descriptor_grants_everyone_all_access() {
    let sd = SecurityDescriptor::world();
    let acl = sd.dacl.expect("world descriptor has a list");
    assert_eq!(acl.entries.len(), 1);
    let ea = acl.entries[0];
    assert_eq!(ea.access_permissions, 0xf003f);
    assert_eq!(ea.access_mode, 2);
    assert_eq!(ea.inheritance, 0);
    assert_eq!(ea.trustee.form, 0);
    assert_eq!(ea.trustee.trustee_type, 2);
    assert_eq!(ea.trustee.sid.authority, 1);
    assert_eq!(subs(&ea.trustee.sid), vec![0]);
}

#[test]
fn new_descriptor_has_no_list() {
    let sd = SecurityDescriptor::new();
    assert!(sd.dacl.is_none());
}

#[test]
fn set_security_descriptor_replaces_list() {
    let mut sd = SecurityDescriptor::world();
    let mut none: [ExplicitAccess; 0] = [];
    sd.set_security_descriptor(Acl::new(&mut none));
    assert_eq!(sd.dacl.expect("list attached").entries.len(), 0);
}

#[test]
fn well_known_sids() {
    let w = Sid::world();
    assert_eq!(w.authority, 1);
    assert_eq!(subs(&w), vec![0]);
    let l = Sid::local();
    assert_eq!(l.authority, 2);
    assert_eq!(subs(&l), vec![0]);
}

#[test]
fn sid_from_raw_bounds() {
    let sub = [21, 7, 9, 11, 13, 17, 19, 23];
    assert!(Sid::from_raw(5, 0, sub).is_none());
    assert!(Sid::from_raw(5, 9, sub).is_none());
    assert!(Sid::from_raw(0x1_0000_0000_0000, 1, sub).is_none());
    let all = Sid::from_raw(0xffff_ffff_ffff, 8, sub).expect("eight sub-authorities fit");
    assert_eq!(subs(&all), sub.to_vec());
    let two = Sid::from_raw(5, 2, sub).expect("two sub-authorities fit");
    assert_eq!(two.authority, 5);
    assert_eq!(subs(&two), vec![21, 7]);
}

#[test]
fn trustee_and_entry_fields() {
    let t = Trustee::from_raw_sid(1, 5, Sid::local());
    assert_eq!(t.form, 1);
    assert_eq!(t.trustee_type, 5);
    assert_eq!(t.sid.authority, 2);
    let w = Trustee::world();
    assert_eq!((w.form, w.trustee_type), (TRUSTEE_IS_SID, TRUSTEE_IS_GROUP));
    let ea = ExplicitAccess::from_raw(0x1, 1, 3, t);
    assert_eq!((ea.access_permissions, ea.access_mode, ea.inheritance), (0x1, 1, 3));
    let all = ExplicitAccess::all_access(&t);
    assert_eq!((all.access_permissions, all.access_mode, all.inheritance), (KEY_ALL_ACCESS, SET_ACCESS, NO_INHERITANCE));
    assert_eq!(all.trustee.sid.authority, 2);
}

#[test]
fn acl_keeps_entries_in_order() {
    let a = ExplicitAccess::all_access(&Trustee::world());
    let b = ExplicitAccess::from_raw(0x1, 1, 0, Trustee::from_raw_sid(0, 1, Sid::local()));
    let mut entries = [a, b];
    let acl = Acl::new(&mut entries);
    assert_eq!(acl.entries.len(), 2);
    assert_eq!(acl.entries[0].trustee.sid.authority, 1);
    assert_eq!(acl.entries[1].trustee.sid.authority, 2);
    assert_eq!(acl.entries[1].access_permissions, 0x1);
    assert_eq!(entries[1].access_permissions, 0x1);
    let copy = acl.duplicate();
    assert_eq!(copy.entries.len(), 2);
    assert_eq!(copy.entries[1].access_mode, 1);
}

#[test]
fn security_attributes_carry_descriptor() {
    let mut sd = SecurityDescriptor::world();
    let attrs = SecurityAttributes::new(&mut sd, true);
    assert!(attrs.inherit_handle);
    let d = attrs.security_descriptor.as_ref().expect("descriptor applied");
    assert_eq!(d.dacl.as_ref().expect("list kept").entries.len(), 1);
    assert!(sd.dacl.is_some());
    let copy = attrs.duplicate();
    assert!(copy.inherit_handle);
    assert!(copy.security_descriptor.is_some());
    let plain = SecurityAttributes::default();
    assert!(plain.security_descriptor.is_none());
    assert!(!plain.inherit_handle);
}

#[test]
fn default_config() {
    let c = NamedPipeConfig::default();
    assert!(c.reject_remote_clients);
    assert!(c.inbound && c.outbound);
    assert_eq!(c.in_buffer_size, 0x10000);
    assert_eq!(c.out_buffer_size, DEFAULT_BUFFER_SIZE);
    assert!(c.security_attributes.security_descriptor.is_none());
}
