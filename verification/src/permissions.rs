//! The permissions that a space grants, and the defaults that this runtime gives every
//! space.
use vstd::prelude::*;

verus! {

/// Something that a role may be allowed to do in a space.
#[derive(Clone, Copy, Debug, PartialEq, Eq, Structural)]
pub enum SpacePermission {
    ManageRoles,
    RepresentSpaceInternally,
    RepresentSpaceExternally,
    UpdateSpace,
    CreateSubspaces,
    UpdateOwnSubspaces,
    DeleteOwnSubspaces,
    HideOwnSubspaces,
    UpdateAnySubspace,
    DeleteAnySubspace,
    HideAnySubspace,
    CreatePosts,
    UpdateOwnPosts,
    DeleteOwnPosts,
    HideOwnPosts,
    UpdateAnyPost,
    DeleteAnyPost,
    HideAnyPost,
    CreateComments,
    UpdateOwnComments,
    DeleteOwnComments,
    HideOwnComments,
    HideAnyComment,
    Upvote,
    Downvote,
    Share,
    OverrideSubspacePermissions,
    OverridePostPermissions,
    SuggestEntityStatus,
    UpdateEntityStatus,
    UpdateSpaceSettings,
}

/// The place of a permission in the order of `SpacePermission`'s variants, which is the
/// order in which a permission set holds them.
pub open spec fn permission_rank(p: SpacePermission) -> nat {
    match p {
        SpacePermission::ManageRoles => 0,
        SpacePermission::RepresentSpaceInternally => 1,
        SpacePermission::RepresentSpaceExternally => 2,
        SpacePermission::UpdateSpace => 3,
        SpacePermission::CreateSubspaces => 4,
        SpacePermission::UpdateOwnSubspaces => 5,
        SpacePermission::DeleteOwnSubspaces => 6,
        SpacePermission::HideOwnSubspaces => 7,
        SpacePermission::UpdateAnySubspace => 8,
        SpacePermission::DeleteAnySubspace => 9,
        SpacePermission::HideAnySubspace => 10,
        SpacePermission::CreatePosts => 11,
        SpacePermission::UpdateOwnPosts => 12,
        SpacePermission::DeleteOwnPosts => 13,
        SpacePermission::HideOwnPosts => 14,
        SpacePermission::UpdateAnyPost => 15,
        SpacePermission::DeleteAnyPost => 16,
        SpacePermission::HideAnyPost => 17,
        SpacePermission::CreateComments => 18,
        SpacePermission::UpdateOwnComments => 19,
        SpacePermission::DeleteOwnComments => 20,
        SpacePermission::HideOwnComments => 21,
        SpacePermission::HideAnyComment => 22,
        SpacePermission::Upvote => 23,
        SpacePermission::Downvote => 24,
        SpacePermission::Share => 25,
        SpacePermission::OverrideSubspacePermissions => 26,
        SpacePermission::OverridePostPermissions => 27,
        SpacePermission::SuggestEntityStatus => 28,
        SpacePermission::UpdateEntityStatus => 29,
        SpacePermission::UpdateSpaceSettings => 30,
    }
}

/// The permissions come in the order of their variants, each at most once.
pub open spec fn ascending(s: Seq<SpacePermission>) -> bool {
    forall|i: int, j: int|
        0 <= i < j < s.len() ==> permission_rank(#[trigger] s[i]) < permission_rank(#[trigger] s[j])
}

/// A set of permissions, held in ascending order without repetition.
#[derive(Clone, Debug)]
pub struct SpacePermissionSet {
    pub permissions: Vec<SpacePermission>,
}

impl SpacePermissionSet {
    /// The permissions are in ascending order, so none occurs twice.
    pub open spec fn valid(&self) -> bool {
        ascending(self.permissions@)
    }
}

impl View for SpacePermissionSet {
    type V = Set<SpacePermission>;

    open spec fn view(&self) -> Set<SpacePermission> {
        self.permissions@.to_set()
    }
}

/// The permissions of each kind of member of a space; `None` leaves a kind without its
/// own set.
#[derive(Clone, Debug)]
pub struct SpacePermissions {
    /// Permissions disabled for everyone.
    pub none: Option<SpacePermissionSet>,
    /// Permissions of every account.
    pub everyone: Option<SpacePermissionSet>,
    /// Permissions of the space's followers.
    pub follower: Option<SpacePermissionSet>,
    /// Permissions of the space's owner.
    pub space_owner: Option<SpacePermissionSet>,
}

/// What everyone may do by default: manage their own subspaces, posts and comments,
/// comment, vote and share.
pub open spec fn everyone_default() -> Set<SpacePermission> {
    set![
        SpacePermission::UpdateOwnSubspaces,
        SpacePermission::DeleteOwnSubspaces,
        SpacePermission::HideOwnSubspaces,
        SpacePermission::UpdateOwnPosts,
        SpacePermission::DeleteOwnPosts,
        SpacePermission::HideOwnPosts,
        SpacePermission::CreateComments,
        SpacePermission::UpdateOwnComments,
        SpacePermission::DeleteOwnComments,
        SpacePermission::HideOwnComments,
        SpacePermission::Upvote,
        SpacePermission::Downvote,
        SpacePermission::Share,
    ]
}

/// What a space's owner may do by default: manage roles, represent the space, override
/// permissions, create subspaces and posts, update, delete and hide any content, handle
/// entity statuses and update the space and its settings.
pub open spec fn space_owner_default() -> Set<SpacePermission> {
    set![
        SpacePermission::ManageRoles,
        SpacePermission::RepresentSpaceInternally,
        SpacePermission::RepresentSpaceExternally,
        SpacePermission::OverrideSubspacePermissions,
        SpacePermission::OverridePostPermissions,
        SpacePermission::CreateSubspaces,
        SpacePermission::CreatePosts,
        SpacePermission::UpdateSpace,
        SpacePermission::UpdateAnySubspace,
        SpacePermission::UpdateAnyPost,
        SpacePermission::DeleteAnySubspace,
        SpacePermission::DeleteAnyPost,
        SpacePermission::HideAnySubspace,
        SpacePermission::HideAnyPost,
        SpacePermission::HideAnyComment,
        SpacePermission::SuggestEntityStatus,
        SpacePermission::UpdateEntityStatus,
        SpacePermission::UpdateSpaceSettings,
    ]
}

/// The permissions that every space starts with: no permission disabled, everyone's and
/// the owner's defaults, and no set of their own for followers, who can do what everyone
/// else can.
pub fn default_space_permissions() -> (r: SpacePermissions)
    ensures
        r.none is None,
        r.follower is None,
        r.everyone matches Some(s) && s@ == everyone_default() && s.valid()
            && s.permissions@.no_duplicates(),
        r.space_owner matches Some(s) && s@ == space_owner_default() && s.valid()
            && s.permissions@.no_duplicates(),
{
    let everyone = vec![
        SpacePermission::UpdateOwnSubspaces,
        SpacePermission::DeleteOwnSubspaces,
        SpacePermission::HideOwnSubspaces,
        SpacePermission::UpdateOwnPosts,
        SpacePermission::DeleteOwnPosts,
        SpacePermission::HideOwnPosts,
        SpacePermission::CreateComments,
        SpacePermission::UpdateOwnComments,
        SpacePermission::DeleteOwnComments,
        SpacePermission::HideOwnComments,
        SpacePermission::Upvote,
        SpacePermission::Downvote,
        SpacePermission::Share,
    ];
    let space_owner = vec![
        SpacePermission::ManageRoles,
        SpacePermission::RepresentSpaceInternally,
        SpacePermission::RepresentSpaceExternally,
        SpacePermission::UpdateSpace,
        SpacePermission::CreateSubspaces,
        SpacePermission::UpdateAnySubspace,
        SpacePermission::DeleteAnySubspace,
        SpacePermission::HideAnySubspace,
        SpacePermission::CreatePosts,
        SpacePermission::UpdateAnyPost,
        SpacePermission::DeleteAnyPost,
        SpacePermission::HideAnyPost,
        SpacePermission::HideAnyComment,
        SpacePermission::OverrideSubspacePermissions,
        SpacePermission::OverridePostPermissions,
        SpacePermission::SuggestEntityStatus,
        SpacePermission::UpdateEntityStatus,
        SpacePermission::UpdateSpaceSettings,
    ];
    proof {
        assert(ascending(everyone@));
        assert(ascending(space_owner@));
        lemma_ascending_no_duplicates(everyone@);
        lemma_ascending_no_duplicates(space_owner@);
        assert(everyone@.to_set() =~= everyone_default()) by {
            assert forall|p: SpacePermission| everyone@.contains(p) <==> everyone_default().contains(p) by {
                if everyone_default().contains(p) {
                    match p {
                        SpacePermission::UpdateOwnSubspaces => assert(everyone@[0] == p),
                        SpacePermission::DeleteOwnSubspaces => assert(everyone@[1] == p),
                        SpacePermission::HideOwnSubspaces => assert(everyone@[2] == p),
                        SpacePermission::UpdateOwnPosts => assert(everyone@[3] == p),
                        SpacePermission::DeleteOwnPosts => assert(everyone@[4] == p),
                        SpacePermission::HideOwnPosts => assert(everyone@[5] == p),
                        SpacePermission::CreateComments => assert(everyone@[6] == p),
                        SpacePermission::UpdateOwnComments => assert(everyone@[7] == p),
                        SpacePermission::DeleteOwnComments => assert(everyone@[8] == p),
                        SpacePermission::HideOwnComments => assert(everyone@[9] == p),
                        SpacePermission::Upvote => assert(everyone@[10] == p),
                        SpacePermission::Downvote => assert(everyone@[11] == p),
                        SpacePermission::Share => assert(everyone@[12] == p),
                        _ => {},
                    }
                }
            }
        }
        assert(space_owner@.to_set() =~= space_owner_default()) by {
            assert forall|p: SpacePermission| space_owner@.contains(p) <==> space_owner_default().contains(p) by {
                if space_owner_default().contains(p) {
                    match p {
                        SpacePermission::ManageRoles => assert(space_owner@[0] == p),
                        SpacePermission::RepresentSpaceInternally => assert(space_owner@[1] == p),
                        SpacePermission::RepresentSpaceExternally => assert(space_owner@[2] == p),
                        SpacePermission::OverrideSubspacePermissions => assert(space_owner@[13] == p),
                        SpacePermission::OverridePostPermissions => assert(space_owner@[14] == p),
                        SpacePermission::CreateSubspaces => assert(space_owner@[4] == p),
                        SpacePermission::CreatePosts => assert(space_owner@[8] == p),
                        SpacePermission::UpdateSpace => assert(space_owner@[3] == p),
                        SpacePermission::UpdateAnySubspace => assert(space_owner@[5] == p),
                        SpacePermission::UpdateAnyPost => assert(space_owner@[9] == p),
                        SpacePermission::DeleteAnySubspace => assert(space_owner@[6] == p),
                        SpacePermission::DeleteAnyPost => assert(space_owner@[10] == p),
                        SpacePermission::HideAnySubspace => assert(space_owner@[7] == p),
                        SpacePermission::HideAnyPost => assert(space_owner@[11] == p),
                        SpacePermission::HideAnyComment => assert(space_owner@[12] == p),
                        SpacePermission::SuggestEntityStatus => assert(space_owner@[15] == p),
                        SpacePermission::UpdateEntityStatus => assert(space_owner@[16] == p),
                        SpacePermission::UpdateSpaceSettings => assert(space_owner@[17] == p),
                        _ => {},
                    }
                }
            }
        }
    }
    SpacePermissions {
        none: None,
        everyone: Some(SpacePermissionSet { permissions: everyone }),
        follower: None,
        space_owner: Some(SpacePermissionSet { permissions: space_owner }),
    }
}

/// Permissions in ascending order occur at most once.
pub proof fn lemma_ascending_no_duplicates(s: Seq<SpacePermission>)
    requires
        ascending(s),
    ensures
        s.no_duplicates(),
{
    assert forall|i: int, j: int| 0 <= i < s.len() && 0 <= j < s.len() && i != j implies s[i] != s[j] by {
        if i < j {
            assert(permission_rank(s[i]) < permission_rank(s[j]));
        } else {
            assert(permission_rank(s[j]) < permission_rank(s[i]));
        }
    }
}

/// The defaults split the permissions between everyone and the owner: no permission is in
/// both sets, and every permission is in one of them.
pub proof fn lemma_defaults_partition_permissions(p: SpacePermission)
    ensures
        !(everyone_default().contains(p) && space_owner_default().contains(p)),
        everyone_default().contains(p) || space_owner_default().contains(p),
{
}

} // verus!
