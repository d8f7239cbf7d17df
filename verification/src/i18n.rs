//! The words of the interface, in Chinese and in English.

use vstd::prelude::*;

verus! {

/// UI language.
#[derive(Clone, Copy, Debug, PartialEq, Eq, Structural)]
pub enum Locale {
    Zh,
    En,
}

/// One line for every slash command.
#[derive(Clone, Copy, Debug)]
pub struct SlashText {
    pub model: &'static str,
    pub permission: &'static str,
    pub goal: &'static str,
    pub btw: &'static str,
    pub recap: &'static str,
    pub work_mode: &'static str,
    pub collab: &'static str,
    pub plan_collab: &'static str,
    pub memory: &'static str,
    pub skill: &'static str,
    pub skill_entry: &'static str,
    pub feature_dev: &'static str,
    pub diff: &'static str,
    pub trace: &'static str,
    pub tools: &'static str,
    pub sessions: &'static str,
    pub restore: &'static str,
    pub fork: &'static str,
    pub compact: &'static str,
    pub export: &'static str,
    pub web: &'static str,
    pub remote: &'static str,
    pub remote_loc: &'static str,
    pub attach: &'static str,
    pub paste: &'static str,
    pub editor: &'static str,
    pub theme: &'static str,
    pub clear: &'static str,
    pub doctor: &'static str,
    pub help: &'static str,
    pub quit: &'static str,
}

/// What a command still wants to be told: bare after a space, else with one.
#[derive(Clone, Copy, Debug)]
pub struct SlashGhost {
    pub btw: &'static str,
    pub btw_spaced: &'static str,
    pub goal: &'static str,
    pub goal_spaced: &'static str,
    pub skill: &'static str,
    pub skill_spaced: &'static str,
    pub path: &'static str,
    pub path_spaced: &'static str,
}

/// The strings of one language.
#[derive(Clone, Copy, Debug)]
pub struct UiText {
    pub locale: Locale,
    /// Help lines of the slash commands.
    pub slash: SlashText,
    /// Popup labels of the slash commands.
    pub slash_brief: SlashText,
    pub slash_ghost: SlashGhost,
    pub active_plan: &'static str,
    pub activity_command_label: &'static str,
    pub activity_current: &'static str,
    pub activity_esc: &'static str,
    pub activity_follow_on: &'static str,
    pub activity_follow_paused: &'static str,
    pub activity_goal: &'static str,
    pub activity_hint_scroll: &'static str,
    pub activity_new_lines: &'static str,
    pub activity_no_output: &'static str,
    pub activity_output_label: &'static str,
    pub activity_result: &'static str,
    pub activity_stale: &'static str,
    pub activity_steps: &'static str,
    pub activity_stop: &'static str,
    pub activity_title_background: &'static str,
    pub activity_title_child: &'static str,
    pub agent_status_completed: &'static str,
    pub agent_status_running: &'static str,
    pub agent_status_timeout: &'static str,
    pub agents_done_header: &'static str,
    pub agents_ended_header: &'static str,
    pub agents_running_header: &'static str,
    pub agents_location: &'static str,
    pub agents_shadows: &'static str,
    pub attachment_chip: &'static str,
    pub background_hint_list_idle: &'static str,
    pub background_hint_list_running: &'static str,
    pub background_list_empty: &'static str,
    pub background_list_finished: &'static str,
    pub background_list_running: &'static str,
    pub background_list_title: &'static str,
    pub background_status_stopped: &'static str,
    pub btw_main_idle: &'static str,
    pub child_budget: &'static str,
    pub child_cancelled: &'static str,
    pub child_lost: &'static str,
    pub commands_disabled_disconnected: &'static str,
    pub completion_diff_hint: &'static str,
    pub completion_files_changed: &'static str,
    pub completion_verified: &'static str,
    pub composer_placeholder: &'static str,
    pub diff_empty: &'static str,
    pub diff_files_pane: &'static str,
    pub diff_footer_hint: &'static str,
    pub diff_reload_hint: &'static str,
    pub failure_detail_hint: &'static str,
    pub failure_detail_label: &'static str,
    pub file_mention: &'static str,
    pub final_blocked: &'static str,
    pub final_cancelled: &'static str,
    pub final_completed_warnings: &'static str,
    pub final_failed: &'static str,
    pub final_verification_failed: &'static str,
    pub finalizing_dependencies: &'static str,
    pub finalizing_evidence: &'static str,
    pub finalizing_outcome: &'static str,
    pub finalizing_review: &'static str,
    pub finalizing_terminal: &'static str,
    pub finalizing_verification: &'static str,
    pub fold_more_lines: &'static str,
    pub footer_cache: &'static str,
    pub footer_context: &'static str,
    pub goal_mode: &'static str,
    pub goal_recap_completed: &'static str,
    pub goal_recap_findings: &'static str,
    pub goal_recap_findings_unknown: &'static str,
    pub goal_recap_label: &'static str,
    pub goal_recap_limitations: &'static str,
    pub goal_recap_phase: &'static str,
    pub goal_recap_plan: &'static str,
    pub goal_recap_unmeasured: &'static str,
    pub goal_recap_unresolved: &'static str,
    pub goal_recap_verification: &'static str,
    pub goal_recap_verified: &'static str,
    pub goal_recap_verify_failed: &'static str,
    pub help_commands: &'static str,
    pub help_group_agent: &'static str,
    pub help_group_input: &'static str,
    pub help_group_session: &'static str,
    pub help_group_system: &'static str,
    pub help_group_view: &'static str,
    pub help_keys: &'static str,
    pub help_scope_conversation: &'static str,
    pub help_scope_input: &'static str,
    pub help_scroll: &'static str,
    pub help_title: &'static str,
    pub hint_cancel: &'static str,
    pub hint_commands: &'static str,
    pub hint_files: &'static str,
    pub hint_interrupt: &'static str,
    pub hint_permission: &'static str,
    pub hint_shortcuts: &'static str,
    pub inspector_read_only: &'static str,
    pub key_cancel_quit: &'static str,
    pub key_editor: &'static str,
    pub key_end: &'static str,
    pub key_esc: &'static str,
    pub key_expand: &'static str,
    pub key_history: &'static str,
    pub key_jump: &'static str,
    pub key_model: &'static str,
    pub key_newline: &'static str,
    pub key_paste_image: &'static str,
    pub key_permission: &'static str,
    pub key_screens: &'static str,
    pub key_scroll_messages: &'static str,
    pub key_scroll_page: &'static str,
    pub key_submit: &'static str,
    pub key_tab_focus: &'static str,
    pub overlay_approval: &'static str,
    pub plan_last_recorded: &'static str,
    pub plan_running_chip: &'static str,
    pub recap_label: &'static str,
    pub recap_next_step: &'static str,
    pub reconnected: &'static str,
    pub reconnecting: &'static str,
    pub remote_compare_hint: &'static str,
    pub remote_footer: &'static str,
    pub remote_label_address: &'static str,
    pub remote_label_host_fp: &'static str,
    pub remote_label_phone_fp: &'static str,
    pub remote_paste_hint: &'static str,
    pub remote_preparing: &'static str,
    pub remote_scan_heading: &'static str,
    pub remote_scan_sub: &'static str,
    pub remote_waiting: &'static str,
    pub remote_wants_connect: &'static str,
    pub remote_yn: &'static str,
    pub screen_remote: &'static str,
    pub screen_sessions: &'static str,
    pub sessions_empty: &'static str,
    pub sessions_footer_hint: &'static str,
    pub shell_command_label: &'static str,
    pub shell_cwd_label: &'static str,
    pub shell_details_title: &'static str,
    pub shell_exit_label: &'static str,
    pub shell_hint_done: &'static str,
    pub shell_hint_running: &'static str,
    pub shell_no_output: &'static str,
    pub shell_output_label: &'static str,
    pub shell_runtime_label: &'static str,
    pub shell_source_label: &'static str,
    pub shell_source_user: &'static str,
    pub shell_status_cancelled: &'static str,
    pub shell_status_failed: &'static str,
    pub shell_status_label: &'static str,
    pub shell_status_running: &'static str,
    pub shell_status_success: &'static str,
    pub shell_status_unknown: &'static str,
    pub shell_truncated: &'static str,
    pub skills_hint: &'static str,
    pub skills_not_loaded: &'static str,
    pub skills_title: &'static str,
    pub splash_more_commands: &'static str,
    pub splash_start_task: &'static str,
    pub splash_tagline: &'static str,
    pub sub_agent_cached: &'static str,
    pub sub_agent_completed: &'static str,
    pub sub_agent_default: &'static str,
    pub sub_agent_explorer: &'static str,
    pub sub_agent_findings: &'static str,
    pub sub_agent_incomplete: &'static str,
    pub sub_agent_interrupted: &'static str,
    pub sub_agent_latest_note: &'static str,
    pub sub_agent_result: &'static str,
    pub sub_agent_reviewer: &'static str,
    pub sub_agent_round_limit: &'static str,
    pub sub_agent_running: &'static str,
    pub sub_agent_task: &'static str,
    pub sub_agent_unreported: &'static str,
    pub sub_agent_waiting: &'static str,
    pub sub_agent_worker: &'static str,
    pub task_separator: &'static str,
    pub thinking: &'static str,
    pub title_awaiting_approval: &'static str,
    pub title_awaiting_input: &'static str,
    pub title_cancelled: &'static str,
    pub title_completed: &'static str,
    pub title_failed: &'static str,
    pub title_incomplete: &'static str,
    pub title_unverified: &'static str,
    pub title_waiting_background: &'static str,
    pub title_working: &'static str,
    pub tool_calls_n: &'static str,
    pub tool_in: &'static str,
    pub turn_budget_exhausted: &'static str,
    pub turn_checks_failed: &'static str,
    pub turn_end_completed: &'static str,
    pub turn_no_automatic_verification: &'static str,
    pub turn_no_code_changes: &'static str,
    pub turn_no_final_answer: &'static str,
    pub turn_observe_thrash: &'static str,
    pub turn_plan_thrash: &'static str,
    pub turn_stalled_goal: &'static str,
    pub turn_unverified: &'static str,
    pub unsupported_task_action: &'static str,
    pub unsupported_task_hint: &'static str,
    pub untrusted_config_chip: &'static str,
    pub untrusted_config_hint: &'static str,
    pub untrusted_config_title: &'static str,
    pub user_shell_cancelled: &'static str,
    pub user_shell_run_label: &'static str,
    pub wait_background: &'static str,
    pub wait_target_running: &'static str,
    pub waiting_model: &'static str,
    pub waiting_reply: &'static str,
}

/// The Chinese strings.
pub open spec fn zh_text() -> UiText {
    UiText {
        locale: Locale::Zh,
        slash: SlashText {
            model: "切换当前会话使用的模型",
            permission: "选择权限档位：询问、自动或完全访问",
            goal: "设置长期任务目标；status 查看，clear 清除",
            btw: "在旁路线程临时提问，不影响主任务",
            recap: "生成一次阶段回顾",
            work_mode: "选择执行策略",
            collab: "选择协作模式：chat、plan 或 goal",
            plan_collab: "先生成计划再执行",
            memory: "查看和管理记忆",
            skill: "列出或使用技能",
            skill_entry: "技能",
            feature_dev: "实现一个新功能",
            diff: "查看工作区改动",
            trace: "查看运行时轨迹",
            tools: "查看工具调用",
            sessions: "列出并切换会话",
            restore: "回到一个检查点",
            fork: "从当前会话分叉",
            compact: "压缩上下文",
            export: "导出会话",
            web: "打开 Web UI",
            remote: "用手机远程连接",
            remote_loc: "在局域网内远程连接",
            attach: "附加文件或图片",
            paste: "粘贴剪贴板图片",
            editor: "在 $EDITOR 中编辑输入",
            theme: "切换主题",
            clear: "清空并开始新会话",
            doctor: "检查运行环境",
            help: "查看命令和按键",
            quit: "退出",
        },
        slash_brief: SlashText {
            model: "切换模型",
            permission: "权限审批",
            goal: "设置目标",
            btw: "临时提问",
            recap: "阶段回顾",
            work_mode: "执行策略",
            collab: "协作模式",
            plan_collab: "生成计划",
            memory: "管理记忆",
            skill: "使用技能",
            skill_entry: "技能",
            feature_dev: "功能实现",
            diff: "查看改动",
            trace: "运行轨迹",
            tools: "工具调用",
            sessions: "会话列表",
            restore: "恢复检查点",
            fork: "分叉会话",
            compact: "压缩上下文",
            export: "导出会话",
            web: "打开网页",
            remote: "远程连接",
            remote_loc: "局域网连接",
            attach: "附加文件",
            paste: "粘贴图片",
            editor: "外部编辑",
            theme: "切换主题",
            clear: "新会话",
            doctor: "环境检查",
            help: "查看帮助",
            quit: "退出",
        },
        slash_ghost: SlashGhost {
            btw: "<问题>",
            btw_spaced: " <问题>",
            goal: "<任务目标> | status | clear",
            goal_spaced: " <任务目标> | status | clear",
            skill: "<技能名>",
            skill_spaced: " <技能名>",
            path: "<文件路径>",
            path_spaced: " <文件路径>",
        },
        active_plan: "计划",
        activity_command_label: "命令",
        activity_current: "当前",
        activity_esc: "Esc 返回",
        activity_follow_on: "Follow ON",
        activity_follow_paused: "Follow PAUSED",
        activity_goal: "目标",
        activity_hint_scroll: "↑↓ 滚动",
        activity_new_lines: "{} 行新输出",
        activity_no_output: "暂无输出",
        activity_output_label: "输出",
        activity_result: "结果",
        activity_stale: "该活动已结束并被移除",
        activity_steps: "活动",
        activity_stop: "x 停止",
        activity_title_background: "Background Task",
        activity_title_child: "Sub-agent",
        agent_status_completed: "已完成",
        agent_status_running: "进行中",
        agent_status_timeout: "超时",
        agents_done_header: "{} 个 agents 完成",
        agents_ended_header: "{} 个 agents 结束",
        agents_running_header: "{} 个 agents 正在运行",
        agents_location: "位置",
        agents_shadows: "覆盖了",
        attachment_chip: "[图片 #{}] ",
        background_hint_list_idle: "Enter 打开 · Esc 返回",
        background_hint_list_running: "Enter 打开 · x 停止 · Esc 返回",
        background_list_empty: "没有后台任务",
        background_list_finished: "已结束",
        background_list_running: "运行中",
        background_list_title: "后台任务",
        background_status_stopped: "已停止",
        btw_main_idle: "主线程空闲",
        child_budget: "预算耗尽",
        child_cancelled: "已取消",
        child_lost: "已丢失",
        commands_disabled_disconnected: "运行时已断开，命令不可用",
        completion_diff_hint: "/diff 查看改动",
        completion_files_changed: "修改 {} 个文件",
        completion_verified: "验证 {}/{} 通过",
        composer_placeholder: "输入消息，/ 查看命令",
        diff_empty: "没有改动",
        diff_files_pane: "文件",
        diff_footer_hint: "↑↓ 选择 · PgUp/PgDn 滚动 · Esc 返回",
        diff_reload_hint: "重新运行 /diff 以加载补丁",
        failure_detail_hint: "Ctrl+O 查看详情",
        failure_detail_label: "详情",
        file_mention: "引用文件",
        final_blocked: "未完成",
        final_cancelled: "已取消",
        final_completed_warnings: "已完成，但有警告",
        final_failed: "失败",
        final_verification_failed: "验证未通过",
        finalizing_dependencies: "正在收尾依赖任务",
        finalizing_evidence: "正在整理证据",
        finalizing_outcome: "正在确定结果",
        finalizing_review: "正在审查",
        finalizing_terminal: "正在发布结果",
        finalizing_verification: "正在验证",
        fold_more_lines: "… 还有 {} 行",
        footer_cache: "缓存 {}%",
        footer_context: "上下文 {}/{}",
        goal_mode: "目标模式",
        goal_recap_completed: "已完成",
        goal_recap_findings: "发现",
        goal_recap_findings_unknown: "未知",
        goal_recap_label: "阶段回顾",
        goal_recap_limitations: "已知限制",
        goal_recap_phase: "阶段",
        goal_recap_plan: "计划",
        goal_recap_unmeasured: "未测量",
        goal_recap_unresolved: "未解决",
        goal_recap_verification: "验证",
        goal_recap_verified: "已通过",
        goal_recap_verify_failed: "未通过",
        help_commands: "命令",
        help_group_agent: "Agent",
        help_group_input: "输入",
        help_group_session: "会话",
        help_group_system: "系统",
        help_group_view: "视图",
        help_keys: "按键",
        help_scope_conversation: "对话",
        help_scope_input: "输入框",
        help_scroll: "↑↓ 滚动 · Esc 返回",
        help_title: "帮助",
        hint_cancel: "取消",
        hint_commands: "命令",
        hint_files: "文件",
        hint_interrupt: "中断",
        hint_permission: "权限",
        hint_shortcuts: "快捷键",
        inspector_read_only: "只读",
        key_cancel_quit: "取消 / 退出",
        key_editor: "在 $EDITOR 中编辑",
        key_end: "行尾",
        key_esc: "返回 / 中断",
        key_expand: "展开或折叠详情",
        key_history: "历史输入",
        key_jump: "回到底部",
        key_model: "切换模型",
        key_newline: "换行",
        key_paste_image: "粘贴图片",
        key_permission: "切换权限",
        key_screens: "Diff / 工具 / 会话",
        key_scroll_messages: "滚动消息",
        key_scroll_page: "翻页",
        key_submit: "发送",
        key_tab_focus: "切换焦点",
        overlay_approval: "等待授权",
        plan_last_recorded: "最后记录 {done}/{total}",
        plan_running_chip: "第 {current}/{total} 步进行中",
        recap_label: "回顾",
        recap_next_step: "下一步：",
        reconnected: "已重连",
        reconnecting: "正在重连 · {attempt}/{max} · {secs}s",
        remote_compare_hint: "请核对手机上显示的指纹",
        remote_footer: "Esc 返回对话",
        remote_label_address: "地址",
        remote_label_host_fp: "主机指纹",
        remote_label_phone_fp: "手机指纹",
        remote_paste_hint: "无法扫码时，粘贴下面的邀请：",
        remote_preparing: "正在准备邀请…",
        remote_scan_heading: "用手机扫码连接",
        remote_scan_sub: "邀请只能使用一次",
        remote_waiting: "等待手机连接…",
        remote_wants_connect: "{}（{}）请求连接",
        remote_yn: "y 接受 · n 拒绝",
        screen_remote: "远程连接",
        screen_sessions: "会话",
        sessions_empty: "没有会话",
        sessions_footer_hint: "↑↓ 选择 · Enter 打开 · Esc 返回",
        shell_command_label: "命令",
        shell_cwd_label: "目录",
        shell_details_title: "Shell 详情",
        shell_exit_label: "退出码",
        shell_hint_done: "Esc 返回",
        shell_hint_running: "x 停止 · Esc 返回",
        shell_no_output: "暂无输出",
        shell_output_label: "输出",
        shell_runtime_label: "运行时长",
        shell_source_label: "来源",
        shell_source_user: "用户",
        shell_status_cancelled: "已取消",
        shell_status_failed: "失败",
        shell_status_label: "状态",
        shell_status_running: "运行中",
        shell_status_success: "成功",
        shell_status_unknown: "状态未知",
        shell_truncated: "输出已截断，仅保留末尾",
        skills_hint: "/skill <名称> 查看详情",
        skills_not_loaded: "未加载",
        skills_title: "技能",
        splash_more_commands: "输入 / 查看更多命令",
        splash_start_task: "输入任务，直接开始",
        splash_tagline: "让模型真正可靠地完成任务",
        sub_agent_cached: "缓存",
        sub_agent_completed: "已完成",
        sub_agent_default: "子 Agent",
        sub_agent_explorer: "探索 Agent",
        sub_agent_findings: "{} 项发现",
        sub_agent_incomplete: "未完成",
        sub_agent_interrupted: "已中断",
        sub_agent_latest_note: "最后进展：",
        sub_agent_result: "结果：",
        sub_agent_reviewer: "审查 Agent",
        sub_agent_round_limit: "未在 {} 轮内完成",
        sub_agent_running: "执行中",
        sub_agent_task: "任务：",
        sub_agent_unreported: "未收到结束状态",
        sub_agent_waiting: "等待执行",
        sub_agent_worker: "执行 Agent",
        task_separator: "、",
        thinking: "思考中",
        title_awaiting_approval: "等待授权",
        title_awaiting_input: "等待输入",
        title_cancelled: "已取消",
        title_completed: "已完成",
        title_failed: "失败",
        title_incomplete: "未完成",
        title_unverified: "未验证",
        title_waiting_background: "等待后台任务",
        title_working: "工作中",
        tool_calls_n: " · {} 次工具",
        tool_in: "于",
        turn_budget_exhausted: "预算已用尽，可继续",
        turn_checks_failed: "已完成，但检查未通过",
        turn_end_completed: "任务已完成",
        turn_no_automatic_verification: "未配置适用的自动验证命令",
        turn_no_code_changes: "◇ 结束 · 未改源码",
        turn_no_final_answer: "没有最终回答",
        turn_observe_thrash: "多轮没有进展，已停止",
        turn_plan_thrash: "计划已完成但仍在观察，已停止",
        turn_stalled_goal: "目标未确认完成",
        turn_unverified: "实现完成 · 验证未运行",
        unsupported_task_action: "委派（不支持）",
        unsupported_task_hint: "不支持 task，请改用 spawn_agent",
        untrusted_config_chip: "⚠ 未信任",
        untrusted_config_hint: "运行 leveler trust 以信任此仓库",
        untrusted_config_title: "仓库内配置未被信任，已忽略",
        user_shell_cancelled: "已取消",
        user_shell_run_label: "执行（用户）",
        wait_background: "等待后台任务",
        wait_target_running: "运行中",
        waiting_model: "等待模型",
        waiting_reply: "等待你的回复",
    }
}

/// The English strings.
pub open spec fn en_text() -> UiText {
    UiText {
        locale: Locale::En,
        slash: SlashText {
            model: "Switch the model of this session",
            permission: "Choose the permission profile: ask, auto or full",
            goal: "Set a long-running goal; status shows it, clear removes it",
            btw: "Ask a side question without touching the main task",
            recap: "Record a checkpoint recap of the goal",
            work_mode: "Choose the work strategy",
            collab: "Choose the collaboration mode: chat, plan or goal",
            plan_collab: "Plan before executing",
            memory: "View and manage memory",
            skill: "List or use a skill",
            skill_entry: "Skill",
            feature_dev: "Implement a new feature",
            diff: "View the changes in the workspace",
            trace: "Inspect the runtime trace",
            tools: "Inspect tool calls",
            sessions: "List and switch sessions",
            restore: "Return to a checkpoint",
            fork: "Fork this session",
            compact: "Compact the context",
            export: "Export the session",
            web: "Open the web UI",
            remote: "Connect from a phone",
            remote_loc: "Connect over the local network",
            attach: "Attach a file or an image",
            paste: "Paste an image from the clipboard",
            editor: "Edit the input in $EDITOR",
            theme: "Switch the theme",
            clear: "Clear and start a new session",
            doctor: "Check the environment",
            help: "Show commands and keys",
            quit: "Quit",
        },
        slash_brief: SlashText {
            model: "Switch model",
            permission: "permission approval",
            goal: "set goal",
            btw: "quick question",
            recap: "goal recap",
            work_mode: "work strategy",
            collab: "collaboration mode",
            plan_collab: "generate plan",
            memory: "manage memory",
            skill: "use a skill",
            skill_entry: "Skill",
            feature_dev: "Implement a feature",
            diff: "view changes",
            trace: "runtime trace",
            tools: "tool calls",
            sessions: "sessions",
            restore: "restore checkpoint",
            fork: "fork session",
            compact: "compact context",
            export: "export session",
            web: "open web UI",
            remote: "remote connect",
            remote_loc: "local remote",
            attach: "attach file",
            paste: "paste image",
            editor: "external editor",
            theme: "switch theme",
            clear: "new session",
            doctor: "environment check",
            help: "View help",
            quit: "quit",
        },
        slash_ghost: SlashGhost {
            btw: "<question>",
            btw_spaced: " <question>",
            goal: "<goal> | status | clear",
            goal_spaced: " <goal> | status | clear",
            skill: "<skill>",
            skill_spaced: " <skill>",
            path: "<path>",
            path_spaced: " <path>",
        },
        active_plan: "Plan",
        activity_command_label: "Command",
        activity_current: "Current",
        activity_esc: "Esc back",
        activity_follow_on: "Follow ON",
        activity_follow_paused: "Follow PAUSED",
        activity_goal: "Goal",
        activity_hint_scroll: "↑↓ scroll",
        activity_new_lines: "{} new lines",
        activity_no_output: "No output yet",
        activity_output_label: "Output",
        activity_result: "Result",
        activity_stale: "This activity has ended and was removed",
        activity_steps: "Activity",
        activity_stop: "x stop",
        activity_title_background: "Background Task",
        activity_title_child: "Sub-agent",
        agent_status_completed: "completed",
        agent_status_running: "running",
        agent_status_timeout: "timed out",
        agents_done_header: "{} agents finished",
        agents_ended_header: "{} agents ended",
        agents_running_header: "{} agents running",
        agents_location: "Location",
        agents_shadows: "Shadows",
        attachment_chip: "[Image #{}] ",
        background_hint_list_idle: "Enter open · Esc back",
        background_hint_list_running: "Enter open · x stop · Esc back",
        background_list_empty: "No background jobs",
        background_list_finished: "Finished",
        background_list_running: "Running",
        background_list_title: "Background jobs",
        background_status_stopped: "stopped",
        btw_main_idle: "Main thread idle",
        child_budget: "budget spent",
        child_cancelled: "cancelled",
        child_lost: "lost",
        commands_disabled_disconnected: "Runtime disconnected; commands are disabled",
        completion_diff_hint: "/diff to view changes",
        completion_files_changed: "{} files changed",
        completion_verified: "verification {}/{} passed",
        composer_placeholder: "Type a message, / for commands",
        diff_empty: "No changes",
        diff_files_pane: "Files",
        diff_footer_hint: "↑↓ select · PgUp/PgDn scroll · Esc back",
        diff_reload_hint: "Run /diff again to load the patch",
        failure_detail_hint: "Ctrl+O for details",
        failure_detail_label: "Details",
        file_mention: "Mention file",
        final_blocked: "Not finished",
        final_cancelled: "Cancelled",
        final_completed_warnings: "Completed with warnings",
        final_failed: "Failed",
        final_verification_failed: "Verification failed",
        finalizing_dependencies: "Settling dependencies",
        finalizing_evidence: "Collecting evidence",
        finalizing_outcome: "Resolving outcome",
        finalizing_review: "Reviewing",
        finalizing_terminal: "Publishing outcome",
        finalizing_verification: "Verifying",
        fold_more_lines: "… {} more lines",
        footer_cache: "cache {}%",
        footer_context: "Context {}/{}",
        goal_mode: "Goal mode",
        goal_recap_completed: "Completed",
        goal_recap_findings: "Findings",
        goal_recap_findings_unknown: "unknown",
        goal_recap_label: "Recap",
        goal_recap_limitations: "Known limitations",
        goal_recap_phase: "Phase",
        goal_recap_plan: "Plan",
        goal_recap_unmeasured: "not measured",
        goal_recap_unresolved: "Unresolved",
        goal_recap_verification: "Verification",
        goal_recap_verified: "passed",
        goal_recap_verify_failed: "failed",
        help_commands: "Commands",
        help_group_agent: "Agent",
        help_group_input: "Input",
        help_group_session: "Session",
        help_group_system: "System",
        help_group_view: "View",
        help_keys: "Keys",
        help_scope_conversation: "conversation",
        help_scope_input: "input",
        help_scroll: "↑↓ scroll · Esc back",
        help_title: "Help",
        hint_cancel: "cancel",
        hint_commands: "commands",
        hint_files: "files",
        hint_interrupt: "interrupt",
        hint_permission: "permission",
        hint_shortcuts: "shortcuts",
        inspector_read_only: "read-only",
        key_cancel_quit: "Cancel / quit",
        key_editor: "Edit in $EDITOR",
        key_end: "End of line",
        key_esc: "Back / interrupt",
        key_expand: "Expand or fold details",
        key_history: "Input history",
        key_jump: "Jump to the live edge",
        key_model: "Switch model",
        key_newline: "New line",
        key_paste_image: "Paste image",
        key_permission: "Cycle permission",
        key_screens: "Diff / Tools / Sessions",
        key_scroll_messages: "Scroll messages",
        key_scroll_page: "Scroll a page",
        key_submit: "Send",
        key_tab_focus: "Switch focus",
        overlay_approval: "Waiting for approval",
        plan_last_recorded: "last recorded {done}/{total}",
        plan_running_chip: "step {current}/{total} in progress",
        recap_label: "recap",
        recap_next_step: "Next: ",
        reconnected: "Reconnected",
        reconnecting: "Reconnecting · {attempt}/{max} · {secs}s",
        remote_compare_hint: "Compare with the fingerprint on the phone",
        remote_footer: "Esc returns to the conversation",
        remote_label_address: "Address",
        remote_label_host_fp: "Host key",
        remote_label_phone_fp: "Phone key",
        remote_paste_hint: "No camera? Paste this invite:",
        remote_preparing: "Preparing the invite…",
        remote_scan_heading: "Scan with the phone to connect",
        remote_scan_sub: "The invite works once",
        remote_waiting: "Waiting for the phone…",
        remote_wants_connect: "{} ({}) wants to connect",
        remote_yn: "y accept · n reject",
        screen_remote: "Remote",
        screen_sessions: "Sessions",
        sessions_empty: "No sessions",
        sessions_footer_hint: "↑↓ select · Enter open · Esc back",
        shell_command_label: "Command",
        shell_cwd_label: "Directory",
        shell_details_title: "Shell details",
        shell_exit_label: "Exit code",
        shell_hint_done: "Esc back",
        shell_hint_running: "x stop · Esc back",
        shell_no_output: "No output",
        shell_output_label: "Output",
        shell_runtime_label: "Runtime",
        shell_source_label: "Source",
        shell_source_user: "User",
        shell_status_cancelled: "cancelled",
        shell_status_failed: "failed",
        shell_status_label: "Status",
        shell_status_running: "running",
        shell_status_success: "succeeded",
        shell_status_unknown: "status unknown",
        shell_truncated: "Output truncated; only the tail is kept",
        skills_hint: "/skill <name> for details",
        skills_not_loaded: "Not loaded",
        skills_title: "Skills",
        splash_more_commands: "Type / for more commands",
        splash_start_task: "Start by entering a task",
        splash_tagline: "Make models reliably complete tasks",
        sub_agent_cached: "cached",
        sub_agent_completed: "completed",
        sub_agent_default: "Agent",
        sub_agent_explorer: "Explorer",
        sub_agent_findings: "{} findings",
        sub_agent_incomplete: "not finished",
        sub_agent_interrupted: "interrupted",
        sub_agent_latest_note: "Latest note: ",
        sub_agent_result: "Result: ",
        sub_agent_reviewer: "Review agent",
        sub_agent_round_limit: "did not finish within {} rounds",
        sub_agent_running: "running",
        sub_agent_task: "Task: ",
        sub_agent_unreported: "no terminal received",
        sub_agent_waiting: "waiting",
        sub_agent_worker: "Worker",
        task_separator: " · ",
        thinking: "Thinking",
        title_awaiting_approval: "awaiting approval",
        title_awaiting_input: "awaiting input",
        title_cancelled: "cancelled",
        title_completed: "completed",
        title_failed: "failed",
        title_incomplete: "incomplete",
        title_unverified: "unverified",
        title_waiting_background: "waiting on background",
        title_working: "working",
        tool_calls_n: " · {} tools",
        tool_in: "in",
        turn_budget_exhausted: "Budget spent; continue to resume",
        turn_checks_failed: "Completed, checks failed",
        turn_end_completed: "Task completed",
        turn_no_automatic_verification: "no applicable automatic verification",
        turn_no_code_changes: "◇ finished · no code changes",
        turn_no_final_answer: "No final answer",
        turn_observe_thrash: "Stopped: no progress over several rounds",
        turn_plan_thrash: "Stopped: plan complete, still observing",
        turn_stalled_goal: "Goal was not confirmed",
        turn_unverified: "implementation done · verification not run",
        unsupported_task_action: "Delegation (unsupported)",
        unsupported_task_hint: "task is unsupported; use spawn_agent",
        untrusted_config_chip: "⚠ untrusted",
        untrusted_config_hint: "Run leveler trust to trust this repository",
        untrusted_config_title: "In-repo config is not trusted and was ignored",
        user_shell_cancelled: "cancelled",
        user_shell_run_label: "Run (user)",
        wait_background: "Waiting for background task",
        wait_target_running: "running",
        waiting_model: "Waiting for model",
        waiting_reply: "Waiting for your reply",
    }
}

/// The strings of a language.
pub open spec fn text_of(locale: Locale) -> UiText {
    match locale {
        Locale::Zh => zh_text(),
        Locale::En => en_text(),
    }
}

impl Locale {
    /// The strings of this language.
    pub fn text(self) -> (r: UiText)
        ensures
            r == text_of(self),
    {
        match self {
            Locale::Zh => UiText {
                locale: Locale::Zh,
                slash: SlashText {
                    model: "切换当前会话使用的模型",
                    permission: "选择权限档位：询问、自动或完全访问",
                    goal: "设置长期任务目标；status 查看，clear 清除",
                    btw: "在旁路线程临时提问，不影响主任务",
                    recap: "生成一次阶段回顾",
                    work_mode: "选择执行策略",
                    collab: "选择协作模式：chat、plan 或 goal",
                    plan_collab: "先生成计划再执行",
                    memory: "查看和管理记忆",
                    skill: "列出或使用技能",
                    skill_entry: "技能",
                    feature_dev: "实现一个新功能",
                    diff: "查看工作区改动",
                    trace: "查看运行时轨迹",
                    tools: "查看工具调用",
                    sessions: "列出并切换会话",
                    restore: "回到一个检查点",
                    fork: "从当前会话分叉",
                    compact: "压缩上下文",
                    export: "导出会话",
                    web: "打开 Web UI",
                    remote: "用手机远程连接",
                    remote_loc: "在局域网内远程连接",
                    attach: "附加文件或图片",
                    paste: "粘贴剪贴板图片",
                    editor: "在 $EDITOR 中编辑输入",
                    theme: "切换主题",
                    clear: "清空并开始新会话",
                    doctor: "检查运行环境",
                    help: "查看命令和按键",
                    quit: "退出",
                },
                slash_brief: SlashText {
                    model: "切换模型",
                    permission: "权限审批",
                    goal: "设置目标",
                    btw: "临时提问",
                    recap: "阶段回顾",
                    work_mode: "执行策略",
                    collab: "协作模式",
                    plan_collab: "生成计划",
                    memory: "管理记忆",
                    skill: "使用技能",
                    skill_entry: "技能",
                    feature_dev: "功能实现",
                    diff: "查看改动",
                    trace: "运行轨迹",
                    tools: "工具调用",
                    sessions: "会话列表",
                    restore: "恢复检查点",
                    fork: "分叉会话",
                    compact: "压缩上下文",
                    export: "导出会话",
                    web: "打开网页",
                    remote: "远程连接",
                    remote_loc: "局域网连接",
                    attach: "附加文件",
                    paste: "粘贴图片",
                    editor: "外部编辑",
                    theme: "切换主题",
                    clear: "新会话",
                    doctor: "环境检查",
                    help: "查看帮助",
                    quit: "退出",
                },
                slash_ghost: SlashGhost {
                    btw: "<问题>",
                    btw_spaced: " <问题>",
                    goal: "<任务目标> | status | clear",
                    goal_spaced: " <任务目标> | status | clear",
                    skill: "<技能名>",
                    skill_spaced: " <技能名>",
                    path: "<文件路径>",
                    path_spaced: " <文件路径>",
                },
                active_plan: "计划",
                activity_command_label: "命令",
                activity_current: "当前",
                activity_esc: "Esc 返回",
                activity_follow_on: "Follow ON",
                activity_follow_paused: "Follow PAUSED",
                activity_goal: "目标",
                activity_hint_scroll: "↑↓ 滚动",
                activity_new_lines: "{} 行新输出",
                activity_no_output: "暂无输出",
                activity_output_label: "输出",
                activity_result: "结果",
                activity_stale: "该活动已结束并被移除",
                activity_steps: "活动",
                activity_stop: "x 停止",
                activity_title_background: "Background Task",
                activity_title_child: "Sub-agent",
                agent_status_completed: "已完成",
                agent_status_running: "进行中",
                agent_status_timeout: "超时",
                agents_done_header: "{} 个 agents 完成",
                agents_ended_header: "{} 个 agents 结束",
                agents_running_header: "{} 个 agents 正在运行",
                agents_location: "位置",
                agents_shadows: "覆盖了",
                attachment_chip: "[图片 #{}] ",
                background_hint_list_idle: "Enter 打开 · Esc 返回",
                background_hint_list_running: "Enter 打开 · x 停止 · Esc 返回",
                background_list_empty: "没有后台任务",
                background_list_finished: "已结束",
                background_list_running: "运行中",
                background_list_title: "后台任务",
                background_status_stopped: "已停止",
                btw_main_idle: "主线程空闲",
                child_budget: "预算耗尽",
                child_cancelled: "已取消",
                child_lost: "已丢失",
                commands_disabled_disconnected: "运行时已断开，命令不可用",
                completion_diff_hint: "/diff 查看改动",
                completion_files_changed: "修改 {} 个文件",
                completion_verified: "验证 {}/{} 通过",
                composer_placeholder: "输入消息，/ 查看命令",
                diff_empty: "没有改动",
                diff_files_pane: "文件",
                diff_footer_hint: "↑↓ 选择 · PgUp/PgDn 滚动 · Esc 返回",
                diff_reload_hint: "重新运行 /diff 以加载补丁",
                failure_detail_hint: "Ctrl+O 查看详情",
                failure_detail_label: "详情",
                file_mention: "引用文件",
                final_blocked: "未完成",
                final_cancelled: "已取消",
                final_completed_warnings: "已完成，但有警告",
                final_failed: "失败",
                final_verification_failed: "验证未通过",
                finalizing_dependencies: "正在收尾依赖任务",
                finalizing_evidence: "正在整理证据",
                finalizing_outcome: "正在确定结果",
                finalizing_review: "正在审查",
                finalizing_terminal: "正在发布结果",
                finalizing_verification: "正在验证",
                fold_more_lines: "… 还有 {} 行",
                footer_cache: "缓存 {}%",
                footer_context: "上下文 {}/{}",
                goal_mode: "目标模式",
                goal_recap_completed: "已完成",
                goal_recap_findings: "发现",
                goal_recap_findings_unknown: "未知",
                goal_recap_label: "阶段回顾",
                goal_recap_limitations: "已知限制",
                goal_recap_phase: "阶段",
                goal_recap_plan: "计划",
                goal_recap_unmeasured: "未测量",
                goal_recap_unresolved: "未解决",
                goal_recap_verification: "验证",
                goal_recap_verified: "已通过",
                goal_recap_verify_failed: "未通过",
                help_commands: "命令",
                help_group_agent: "Agent",
                help_group_input: "输入",
                help_group_session: "会话",
                help_group_system: "系统",
                help_group_view: "视图",
                help_keys: "按键",
                help_scope_conversation: "对话",
                help_scope_input: "输入框",
                help_scroll: "↑↓ 滚动 · Esc 返回",
                help_title: "帮助",
                hint_cancel: "取消",
                hint_commands: "命令",
                hint_files: "文件",
                hint_interrupt: "中断",
                hint_permission: "权限",
                hint_shortcuts: "快捷键",
                inspector_read_only: "只读",
                key_cancel_quit: "取消 / 退出",
                key_editor: "在 $EDITOR 中编辑",
                key_end: "行尾",
                key_esc: "返回 / 中断",
                key_expand: "展开或折叠详情",
                key_history: "历史输入",
                key_jump: "回到底部",
                key_model: "切换模型",
                key_newline: "换行",
                key_paste_image: "粘贴图片",
                key_permission: "切换权限",
                key_screens: "Diff / 工具 / 会话",
                key_scroll_messages: "滚动消息",
                key_scroll_page: "翻页",
                key_submit: "发送",
                key_tab_focus: "切换焦点",
                overlay_approval: "等待授权",
                plan_last_recorded: "最后记录 {done}/{total}",
                plan_running_chip: "第 {current}/{total} 步进行中",
                recap_label: "回顾",
                recap_next_step: "下一步：",
                reconnected: "已重连",
                reconnecting: "正在重连 · {attempt}/{max} · {secs}s",
                remote_compare_hint: "请核对手机上显示的指纹",
                remote_footer: "Esc 返回对话",
                remote_label_address: "地址",
                remote_label_host_fp: "主机指纹",
                remote_label_phone_fp: "手机指纹",
                remote_paste_hint: "无法扫码时，粘贴下面的邀请：",
                remote_preparing: "正在准备邀请…",
                remote_scan_heading: "用手机扫码连接",
                remote_scan_sub: "邀请只能使用一次",
                remote_waiting: "等待手机连接…",
                remote_wants_connect: "{}（{}）请求连接",
                remote_yn: "y 接受 · n 拒绝",
                screen_remote: "远程连接",
                screen_sessions: "会话",
                sessions_empty: "没有会话",
                sessions_footer_hint: "↑↓ 选择 · Enter 打开 · Esc 返回",
                shell_command_label: "命令",
                shell_cwd_label: "目录",
                shell_details_title: "Shell 详情",
                shell_exit_label: "退出码",
                shell_hint_done: "Esc 返回",
                shell_hint_running: "x 停止 · Esc 返回",
                shell_no_output: "暂无输出",
                shell_output_label: "输出",
                shell_runtime_label: "运行时长",
                shell_source_label: "来源",
                shell_source_user: "用户",
                shell_status_cancelled: "已取消",
                shell_status_failed: "失败",
                shell_status_label: "状态",
                shell_status_running: "运行中",
                shell_status_success: "成功",
                shell_status_unknown: "状态未知",
                shell_truncated: "输出已截断，仅保留末尾",
                skills_hint: "/skill <名称> 查看详情",
                skills_not_loaded: "未加载",
                skills_title: "技能",
                splash_more_commands: "输入 / 查看更多命令",
                splash_start_task: "输入任务，直接开始",
                splash_tagline: "让模型真正可靠地完成任务",
                sub_agent_cached: "缓存",
                sub_agent_completed: "已完成",
                sub_agent_default: "子 Agent",
                sub_agent_explorer: "探索 Agent",
                sub_agent_findings: "{} 项发现",
                sub_agent_incomplete: "未完成",
                sub_agent_interrupted: "已中断",
                sub_agent_latest_note: "最后进展：",
                sub_agent_result: "结果：",
                sub_agent_reviewer: "审查 Agent",
                sub_agent_round_limit: "未在 {} 轮内完成",
                sub_agent_running: "执行中",
                sub_agent_task: "任务：",
                sub_agent_unreported: "未收到结束状态",
                sub_agent_waiting: "等待执行",
                sub_agent_worker: "执行 Agent",
                task_separator: "、",
                thinking: "思考中",
                title_awaiting_approval: "等待授权",
                title_awaiting_input: "等待输入",
                title_cancelled: "已取消",
                title_completed: "已完成",
                title_failed: "失败",
                title_incomplete: "未完成",
                title_unverified: "未验证",
                title_waiting_background: "等待后台任务",
                title_working: "工作中",
                tool_calls_n: " · {} 次工具",
                tool_in: "于",
                turn_budget_exhausted: "预算已用尽，可继续",
                turn_checks_failed: "已完成，但检查未通过",
                turn_end_completed: "任务已完成",
                turn_no_automatic_verification: "未配置适用的自动验证命令",
                turn_no_code_changes: "◇ 结束 · 未改源码",
                turn_no_final_answer: "没有最终回答",
                turn_observe_thrash: "多轮没有进展，已停止",
                turn_plan_thrash: "计划已完成但仍在观察，已停止",
                turn_stalled_goal: "目标未确认完成",
                turn_unverified: "实现完成 · 验证未运行",
                unsupported_task_action: "委派（不支持）",
                unsupported_task_hint: "不支持 task，请改用 spawn_agent",
                untrusted_config_chip: "⚠ 未信任",
                untrusted_config_hint: "运行 leveler trust 以信任此仓库",
                untrusted_config_title: "仓库内配置未被信任，已忽略",
                user_shell_cancelled: "已取消",
                user_shell_run_label: "执行（用户）",
                wait_background: "等待后台任务",
                wait_target_running: "运行中",
                waiting_model: "等待模型",
                waiting_reply: "等待你的回复",
            },
            Locale::En => UiText {
                locale: Locale::En,
                slash: SlashText {
                    model: "Switch the model of this session",
                    permission: "Choose the permission profile: ask, auto or full",
                    goal: "Set a long-running goal; status shows it, clear removes it",
                    btw: "Ask a side question without touching the main task",
                    recap: "Record a checkpoint recap of the goal",
                    work_mode: "Choose the work strategy",
                    collab: "Choose the collaboration mode: chat, plan or goal",
                    plan_collab: "Plan before executing",
                    memory: "View and manage memory",
                    skill: "List or use a skill",
                    skill_entry: "Skill",
                    feature_dev: "Implement a new feature",
                    diff: "View the changes in the workspace",
                    trace: "Inspect the runtime trace",
                    tools: "Inspect tool calls",
                    sessions: "List and switch sessions",
                    restore: "Return to a checkpoint",
                    fork: "Fork this session",
                    compact: "Compact the context",
                    export: "Export the session",
                    web: "Open the web UI",
                    remote: "Connect from a phone",
                    remote_loc: "Connect over the local network",
                    attach: "Attach a file or an image",
                    paste: "Paste an image from the clipboard",
                    editor: "Edit the input in $EDITOR",
                    theme: "Switch the theme",
                    clear: "Clear and start a new session",
                    doctor: "Check the environment",
                    help: "Show commands and keys",
                    quit: "Quit",
                },
                slash_brief: SlashText {
                    model: "Switch model",
                    permission: "permission approval",
                    goal: "set goal",
                    btw: "quick question",
                    recap: "goal recap",
                    work_mode: "work strategy",
                    collab: "collaboration mode",
                    plan_collab: "generate plan",
                    memory: "manage memory",
                    skill: "use a skill",
                    skill_entry: "Skill",
                    feature_dev: "Implement a feature",
                    diff: "view changes",
                    trace: "runtime trace",
                    tools: "tool calls",
                    sessions: "sessions",
                    restore: "restore checkpoint",
                    fork: "fork session",
                    compact: "compact context",
                    export: "export session",
                    web: "open web UI",
                    remote: "remote connect",
                    remote_loc: "local remote",
                    attach: "attach file",
                    paste: "paste image",
                    editor: "external editor",
                    theme: "switch theme",
                    clear: "new session",
                    doctor: "environment check",
                    help: "View help",
                    quit: "quit",
                },
                slash_ghost: SlashGhost {
                    btw: "<question>",
                    btw_spaced: " <question>",
                    goal: "<goal> | status | clear",
                    goal_spaced: " <goal> | status | clear",
                    skill: "<skill>",
                    skill_spaced: " <skill>",
                    path: "<path>",
                    path_spaced: " <path>",
                },
                active_plan: "Plan",
                activity_command_label: "Command",
                activity_current: "Current",
                activity_esc: "Esc back",
                activity_follow_on: "Follow ON",
                activity_follow_paused: "Follow PAUSED",
                activity_goal: "Goal",
                activity_hint_scroll: "↑↓ scroll",
                activity_new_lines: "{} new lines",
                activity_no_output: "No output yet",
                activity_output_label: "Output",
                activity_result: "Result",
                activity_stale: "This activity has ended and was removed",
                activity_steps: "Activity",
                activity_stop: "x stop",
                activity_title_background: "Background Task",
                activity_title_child: "Sub-agent",
                agent_status_completed: "completed",
                agent_status_running: "running",
                agent_status_timeout: "timed out",
                agents_done_header: "{} agents finished",
                agents_ended_header: "{} agents ended",
                agents_running_header: "{} agents running",
                agents_location: "Location",
                agents_shadows: "Shadows",
                attachment_chip: "[Image #{}] ",
                background_hint_list_idle: "Enter open · Esc back",
                background_hint_list_running: "Enter open · x stop · Esc back",
                background_list_empty: "No background jobs",
                background_list_finished: "Finished",
                background_list_running: "Running",
                background_list_title: "Background jobs",
                background_status_stopped: "stopped",
                btw_main_idle: "Main thread idle",
                child_budget: "budget spent",
                child_cancelled: "cancelled",
                child_lost: "lost",
                commands_disabled_disconnected: "Runtime disconnected; commands are disabled",
                completion_diff_hint: "/diff to view changes",
                completion_files_changed: "{} files changed",
                completion_verified: "verification {}/{} passed",
                composer_placeholder: "Type a message, / for commands",
                diff_empty: "No changes",
                diff_files_pane: "Files",
                diff_footer_hint: "↑↓ select · PgUp/PgDn scroll · Esc back",
                diff_reload_hint: "Run /diff again to load the patch",
                failure_detail_hint: "Ctrl+O for details",
                failure_detail_label: "Details",
                file_mention: "Mention file",
                final_blocked: "Not finished",
                final_cancelled: "Cancelled",
                final_completed_warnings: "Completed with warnings",
                final_failed: "Failed",
                final_verification_failed: "Verification failed",
                finalizing_dependencies: "Settling dependencies",
                finalizing_evidence: "Collecting evidence",
                finalizing_outcome: "Resolving outcome",
                finalizing_review: "Reviewing",
                finalizing_terminal: "Publishing outcome",
                finalizing_verification: "Verifying",
                fold_more_lines: "… {} more lines",
                footer_cache: "cache {}%",
                footer_context: "Context {}/{}",
                goal_mode: "Goal mode",
                goal_recap_completed: "Completed",
                goal_recap_findings: "Findings",
                goal_recap_findings_unknown: "unknown",
                goal_recap_label: "Recap",
                goal_recap_limitations: "Known limitations",
                goal_recap_phase: "Phase",
                goal_recap_plan: "Plan",
                goal_recap_unmeasured: "not measured",
                goal_recap_unresolved: "Unresolved",
                goal_recap_verification: "Verification",
                goal_recap_verified: "passed",
                goal_recap_verify_failed: "failed",
                help_commands: "Commands",
                help_group_agent: "Agent",
                help_group_input: "Input",
                help_group_session: "Session",
                help_group_system: "System",
                help_group_view: "View",
                help_keys: "Keys",
                help_scope_conversation: "conversation",
                help_scope_input: "input",
                help_scroll: "↑↓ scroll · Esc back",
                help_title: "Help",
                hint_cancel: "cancel",
                hint_commands: "commands",
                hint_files: "files",
                hint_interrupt: "interrupt",
                hint_permission: "permission",
                hint_shortcuts: "shortcuts",
                inspector_read_only: "read-only",
                key_cancel_quit: "Cancel / quit",
                key_editor: "Edit in $EDITOR",
                key_end: "End of line",
                key_esc: "Back / interrupt",
                key_expand: "Expand or fold details",
                key_history: "Input history",
                key_jump: "Jump to the live edge",
                key_model: "Switch model",
                key_newline: "New line",
                key_paste_image: "Paste image",
                key_permission: "Cycle permission",
                key_screens: "Diff / Tools / Sessions",
                key_scroll_messages: "Scroll messages",
                key_scroll_page: "Scroll a page",
                key_submit: "Send",
                key_tab_focus: "Switch focus",
                overlay_approval: "Waiting for approval",
                plan_last_recorded: "last recorded {done}/{total}",
                plan_running_chip: "step {current}/{total} in progress",
                recap_label: "recap",
                recap_next_step: "Next: ",
                reconnected: "Reconnected",
                reconnecting: "Reconnecting · {attempt}/{max} · {secs}s",
                remote_compare_hint: "Compare with the fingerprint on the phone",
                remote_footer: "Esc returns to the conversation",
                remote_label_address: "Address",
                remote_label_host_fp: "Host key",
                remote_label_phone_fp: "Phone key",
                remote_paste_hint: "No camera? Paste this invite:",
                remote_preparing: "Preparing the invite…",
                remote_scan_heading: "Scan with the phone to connect",
                remote_scan_sub: "The invite works once",
                remote_waiting: "Waiting for the phone…",
                remote_wants_connect: "{} ({}) wants to connect",
                remote_yn: "y accept · n reject",
                screen_remote: "Remote",
                screen_sessions: "Sessions",
                sessions_empty: "No sessions",
                sessions_footer_hint: "↑↓ select · Enter open · Esc back",
                shell_command_label: "Command",
                shell_cwd_label: "Directory",
                shell_details_title: "Shell details",
                shell_exit_label: "Exit code",
                shell_hint_done: "Esc back",
                shell_hint_running: "x stop · Esc back",
                shell_no_output: "No output",
                shell_output_label: "Output",
                shell_runtime_label: "Runtime",
                shell_source_label: "Source",
                shell_source_user: "User",
                shell_status_cancelled: "cancelled",
                shell_status_failed: "failed",
                shell_status_label: "Status",
                shell_status_running: "running",
                shell_status_success: "succeeded",
                shell_status_unknown: "status unknown",
                shell_truncated: "Output truncated; only the tail is kept",
                skills_hint: "/skill <name> for details",
                skills_not_loaded: "Not loaded",
                skills_title: "Skills",
                splash_more_commands: "Type / for more commands",
                splash_start_task: "Start by entering a task",
                splash_tagline: "Make models reliably complete tasks",
                sub_agent_cached: "cached",
                sub_agent_completed: "completed",
                sub_agent_default: "Agent",
                sub_agent_explorer: "Explorer",
                sub_agent_findings: "{} findings",
                sub_agent_incomplete: "not finished",
                sub_agent_interrupted: "interrupted",
                sub_agent_latest_note: "Latest note: ",
                sub_agent_result: "Result: ",
                sub_agent_reviewer: "Review agent",
                sub_agent_round_limit: "did not finish within {} rounds",
                sub_agent_running: "running",
                sub_agent_task: "Task: ",
                sub_agent_unreported: "no terminal received",
                sub_agent_waiting: "waiting",
                sub_agent_worker: "Worker",
                task_separator: " · ",
                thinking: "Thinking",
                title_awaiting_approval: "awaiting approval",
                title_awaiting_input: "awaiting input",
                title_cancelled: "cancelled",
                title_completed: "completed",
                title_failed: "failed",
                title_incomplete: "incomplete",
                title_unverified: "unverified",
                title_waiting_background: "waiting on background",
                title_working: "working",
                tool_calls_n: " · {} tools",
                tool_in: "in",
                turn_budget_exhausted: "Budget spent; continue to resume",
                turn_checks_failed: "Completed, checks failed",
                turn_end_completed: "Task completed",
                turn_no_automatic_verification: "no applicable automatic verification",
                turn_no_code_changes: "◇ finished · no code changes",
                turn_no_final_answer: "No final answer",
                turn_observe_thrash: "Stopped: no progress over several rounds",
                turn_plan_thrash: "Stopped: plan complete, still observing",
                turn_stalled_goal: "Goal was not confirmed",
                turn_unverified: "implementation done · verification not run",
                unsupported_task_action: "Delegation (unsupported)",
                unsupported_task_hint: "task is unsupported; use spawn_agent",
                untrusted_config_chip: "⚠ untrusted",
                untrusted_config_hint: "Run leveler trust to trust this repository",
                untrusted_config_title: "In-repo config is not trusted and was ignored",
                user_shell_cancelled: "cancelled",
                user_shell_run_label: "Run (user)",
                wait_background: "Waiting for background task",
                wait_target_running: "running",
                waiting_model: "Waiting for model",
                waiting_reply: "Waiting for your reply",
            },
        }
    }
}

} // verus!
