use forgefin::ipc::{AuthResult, CompanyBrief, CurrentUser, UserInfo};
use forgefin::nav::{depth_style, nav_tree, NavKey, NavState};
use forgefin::pagination::{dedup, page_count, pager_texts, visible_pages};
use forgefin::session::{
    avatar_initial, current_company_name, department, display_name, header_company_name,
    switcher_label, switcher_visible, Session,
};
use forgefin::shell::{page_for, placeholder_title, project_record_status, root_screens, Page, ProjectRecordResponse};

fn user(name: &str, dept: Option<&str>) -> UserInfo {
    UserInfo {
        id: "u1".to_string(),
        username: "zhang".to_string(),
        display_name: name.to_string(),
        department: dept.map(|d| d.to_string()),
        is_admin: false,
    }
}

fn company(id: &str, name: &str) -> CompanyBrief {
    CompanyBrief { id: id.to_string(), name: name.to_string() }
}

#[test]
fn page_count_rounds_up() {
    assert_eq!(page_count(245, 20), 13);
    assert_eq!(page_count(240, 20), 12);
    assert_eq!(page_count(0, 20), 0);
    assert_eq!(page_count(1, 20), 1);
}

#[test]
fn pager_buttons() {
    assert_eq!(visible_pages(100, 1, 20), vec![1, 2, 3, 4, 5]);
    assert_eq!(visible_pages(0, 1, 20), Vec::<i32>::new());
    assert_eq!(visible_pages(245, 1, 20), vec![1, 2, 3, 4, 5, -1, 13]);
    assert_eq!(visible_pages(245, 6, 20), vec![5, 6, 7, -1, 13]);
    assert_eq!(visible_pages(160, 5, 20), vec![4, 5, 6, -1, 8]);
    assert_eq!(visible_pages(160, 8, 20), vec![1, 2, 3, 4, 5, -1, 8]);
    assert_eq!(visible_pages(180, 6, 20), vec![5, 6, 7, -1, 9]);
}

#[test]
fn pager_never_exceeds_seven_and_ends_on_last_page() {
    for total in [1, 20, 139, 140, 141, 245, 1000] {
        for current in [-3, 1, 2, 4, 6, 7, 12, 50] {
            let v = visible_pages(total, current, 20);
            assert!(v.len() <= 7);
            assert_eq!(*v.last().unwrap(), page_count(total, 20));
        }
    }
}

#[test]
fn pager_skips_the_current_page_just_before_the_last() {
    // On a long list the two pages before the last fall back to pages 1 to 5.
    assert!(!visible_pages(200, 8, 20).contains(&8));
    assert!(!visible_pages(200, 9, 20).contains(&9));
    assert!(visible_pages(200, 7, 20).contains(&7));
    assert!(visible_pages(200, 10, 20).contains(&10));
}

#[test]
fn the_current_page_is_shown_except_just_before_the_last() {
    for total in [1, 60, 140, 141, 200, 245, 1000] {
        let pages = page_count(total, 20);
        for current in 1..=pages {
            let skipped = pages > 7 && (current == pages - 2 || current == pages - 1);
            assert_eq!(visible_pages(total, current, 20).contains(&current), !skipped, "{total} {current}");
        }
    }
}

#[test]
fn dedup_removes_consecutive_repeats() {
    assert_eq!(dedup(vec![1, 1, 2, 2, 2, 1]), vec![1, 2, 1]);
    assert_eq!(pager_texts(245, 3, 20), ("共 245 条".to_string(), "20条/页".to_string(), "前往 3 页".to_string()));
}

#[test]
fn menu_tree_and_state() {
    let tree = nav_tree();
    assert_eq!(tree.len(), 10);
    assert_eq!(tree[0].label, "首页");
    assert_eq!(tree[9].route, "/settings");
    let mut st = NavState::new();
    assert!(st.is_active(NavKey::VoucherManagement));
    assert!(st.is_expanded(NavKey::VoucherManagement));
    st.toggle_expand(NavKey::VoucherManagement);
    assert!(!st.is_expanded(NavKey::VoucherManagement));
    st.toggle_expand(NavKey::ReportCenter);
    st.toggle_expand(NavKey::VoucherManagement);
    assert!(st.is_expanded(NavKey::VoucherManagement));
    assert!(st.is_expanded(NavKey::ReportCenter));
    assert_eq!(st.expanded, vec![NavKey::ReportCenter, NavKey::VoucherManagement]);
    st.toggle_collapse();
    assert!(st.collapsed);
    st.toggle_collapse();
    assert!(!st.collapsed);
    st.activate(NavKey::Home);
    assert!(st.is_active(NavKey::Home));
    assert_eq!(depth_style(0), "");
    assert_eq!(depth_style(1), "padding-left: 32px");
}

#[test]
fn session_lifecycle() {
    let mut s = Session::new();
    assert!(s.loading());
    assert!(!s.is_logged_in());
    s.init(Err("offline".to_string()));
    assert!(!s.loading());
    assert!(!s.is_logged_in());
    let first = s.login(AuthResult {
        user: user("张会计", Some("财务部")),
        companies: vec![company("c1", "甲公司"), company("c2", "乙公司")],
    });
    assert_eq!(first.as_deref(), Some("c1"));
    assert!(s.is_logged_in());
    assert!(!s.has_company());
    s.switch_company("c2".to_string());
    assert!(s.has_company());
    assert_eq!(header_company_name(s.available_companies(), s.company_id()), "乙公司");
    s.logout();
    assert!(!s.is_logged_in());
    assert!(!s.has_company());
    assert!(s.available_companies().is_empty());
}

#[test]
fn session_restored_at_start() {
    let mut s = Session::new();
    s.init(Ok(CurrentUser {
        user: Some(user("李主管", None)),
        company_id: Some("c1".to_string()),
        available_companies: vec![company("c1", "甲公司")],
    }));
    assert!(s.is_logged_in());
    assert!(s.has_company());
    assert!(!s.loading());
}

#[test]
fn header_texts() {
    let list = vec![company("c1", "甲公司"), company("c2", "乙公司")];
    assert_eq!(current_company_name(&list, &Some("c2".to_string())).map(|s| s.as_str()), Some("乙公司"));
    assert_eq!(current_company_name(&list, &None), None);
    assert_eq!(switcher_label(&list, &Some("zz".to_string())), "未选择");
    assert!(switcher_visible(&list));
    assert!(!switcher_visible(&list[..1].to_vec()));
    assert_eq!(header_company_name(&list, &None), "");
    assert_eq!(display_name(&None), "未登录");
    assert_eq!(display_name(&Some(user("王", None))), "王");
    assert_eq!(department(&Some(user("王", Some("财务部")))), "财务部");
    assert_eq!(department(&Some(user("王", None))), "");
    assert_eq!(avatar_initial("张会计"), '张');
    assert_eq!(avatar_initial(""), '?');
}

#[test]
fn root_and_routing() {
    assert_eq!(root_screens(true, false), (true, false, false));
    assert_eq!(root_screens(false, false), (false, true, false));
    assert_eq!(root_screens(false, true), (false, false, true));
    assert_eq!(page_for(NavKey::Home, false), Page::NoCompany);
    assert_eq!(page_for(NavKey::Home, true), Page::Dashboard);
    assert_eq!(page_for(NavKey::VoucherQuery, true), Page::VoucherList);
    assert_eq!(page_for(NavKey::VoucherAudit, true), Page::VoucherAudit);
    assert_eq!(page_for(NavKey::AccountsPayable, true), Page::Contacts);
    assert_eq!(page_for(NavKey::TrialBalance, true), Page::Placeholder);
    assert_eq!(placeholder_title(NavKey::TrialBalance), Some("试算平衡表"));
    assert_eq!(placeholder_title(NavKey::Home), None);
}

#[test]
fn project_record_status_line() {
    let ok: Result<ProjectRecordResponse, String> =
        Ok(ProjectRecordResponse { voucher_id: 123, status: "Mock Success".to_string() });
    assert_eq!(project_record_status(&ok), "Success! Voucher ID: 123");
    assert_eq!(project_record_status(&Err("boom".to_string())), "Error: boom");
}
